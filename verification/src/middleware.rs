//! The combinator itself: the builder and the wrapped stage.
//!
//! The predicate, the inner stages and the transform template are all plain
//! function values, so the whole dispatch path is ordinary verified code.
//! The enabling predicate has type `Fn(&Req) -> bool` (it reads the request
//! without consuming it), a stage has type `Fn(Req) -> Result<Resp, E>`, and
//! the transform template has type `Fn(B) -> Result<V, IE>`: it consumes the
//! base stage and either produces the transformed stage or fails with an
//! initialization error. The predicate and the template sit behind an
//! [`Arc`] each, so every wrapped stage spawned from one builder shares the
//! one predicate and the one template.
//!
//! Error policy of a failed realization: the template has consumed the base
//! stage by the time it fails, so the instance is marked permanently failed;
//! the triggering dispatch surfaces the template's error, and every later
//! dispatch fails immediately with [`ConditionError::Failed`] without
//! re-attempting realization.

use std::sync::Arc;
use vstd::prelude::*;

use crate::state::ServiceState;
use crate::state::StateView;
use crate::transitions::Phase;
use crate::transitions::step;

verus! {

/// What a dispatch can fail with.
#[derive(Debug, PartialEq, Eq)]
pub enum ConditionError<E, IE> {
    /// The active inner stage (base or transformed) failed; its error,
    /// unchanged.
    Inner(E),
    /// The transform template failed to realize the transformed stage; this
    /// is the error of the triggering dispatch itself.
    Realization(IE),
    /// An earlier dispatch's realization failed; the instance is permanently
    /// failed and the request was not routed anywhere.
    Failed,
}

/// The builder: holds the enabling predicate and the shared transform
/// template, and wraps base stages into [`ConditionMiddleware`] instances.
pub struct Condition<T, F> {
    trans: Arc<T>,
    enable: Arc<F>,
}

/// The wrapped stage produced by [`Condition::new_transform`]: routes each
/// request to the base or the transformed stage and performs the one-shot
/// transition between them.
pub struct ConditionMiddleware<T, B, V, F> {
    trans: Arc<T>,
    service: ServiceState<B, V>,
    enable: Arc<F>,
}

/// Whether result `r` of a dispatch is what forwarding the request to
/// `stage` can produce: the stage's own result, with its error wrapped as
/// [`ConditionError::Inner`] and nothing else changed.
pub open spec fn forwards_to<S, Req, Resp, E, IE>(
    stage: S,
    req: Req,
    r: Result<Resp, ConditionError<E, IE>>,
) -> bool where S: Fn(Req) -> Result<Resp, E> {
    match r {
        Ok(resp) => call_ensures(stage, (req,), Ok(resp)),
        Err(ConditionError::Inner(e)) => call_ensures(stage, (req,), Err(e)),
        Err(ConditionError::Realization(_)) => false,
        Err(ConditionError::Failed) => false,
    }
}

/// The whole contract of one dispatch: how the new state `post` and the
/// result `r` arise from the previous state `pre`, the predicate `enable`,
/// the transform template `trans` and the request.
///
/// In the base state, some verdict `p` of the predicate on the request
/// decides: if `p` is false the request is forwarded to the base stage and
/// the state is untouched; if `p` is true, some outcome of the template on
/// the base stage decides between installing the transformed stage (and
/// forwarding the same request to it) and marking the instance permanently
/// failed. The transformed state is terminal and forwards without consulting
/// the predicate; the failed state is terminal and rejects.
pub open spec fn dispatch_post<T, B, V, F, Req, Resp, E, IE>(
    pre: StateView<B, V>,
    enable: F,
    trans: T,
    req: Req,
    post: StateView<B, V>,
    r: Result<Resp, ConditionError<E, IE>>,
) -> bool where
    F: Fn(&Req) -> bool,
    B: Fn(Req) -> Result<Resp, E>,
    V: Fn(Req) -> Result<Resp, E>,
    T: Fn(B) -> Result<V, IE>,
 {
    match pre {
        StateView::Transformed(v) => post == pre && forwards_to(v, req, r),
        StateView::Failed => post == pre && r matches Err(ConditionError::Failed),
        StateView::Base(b) => exists|p: bool|
            #[trigger] call_ensures(enable, (&req,), p) && base_verdict(b, trans, req, post, r, p),
    }
}

/// What follows from the predicate's verdict `p` on a request met in the
/// base state, with `b` the base stage held there.
pub open spec fn base_verdict<T, B, V, Req, Resp, E, IE>(
    b: B,
    trans: T,
    req: Req,
    post: StateView<B, V>,
    r: Result<Resp, ConditionError<E, IE>>,
    p: bool,
) -> bool where
    B: Fn(Req) -> Result<Resp, E>,
    V: Fn(Req) -> Result<Resp, E>,
    T: Fn(B) -> Result<V, IE>,
 {
    if !p {
        post == StateView::<B, V>::Base(b) && forwards_to(b, req, r)
    } else {
        exists|out: Result<V, IE>|
            #[trigger] call_ensures(trans, (b,), out) && realization_outcome(out, req, post, r)
    }
}

/// What follows from the outcome `out` of handing the base stage to the
/// transform template on the triggering request.
pub open spec fn realization_outcome<B, V, Req, Resp, E, IE>(
    out: Result<V, IE>,
    req: Req,
    post: StateView<B, V>,
    r: Result<Resp, ConditionError<E, IE>>,
) -> bool where V: Fn(Req) -> Result<Resp, E> {
    match out {
        Ok(v) => post == StateView::<B, V>::Transformed(v) && forwards_to(v, req, r),
        Err(ie) => post == StateView::<B, V>::Failed && r == Result::<
            Resp,
            ConditionError<E, IE>,
        >::Err(ConditionError::Realization(ie)),
    }
}

impl<T, F> Condition<T, F> {
    /// The enabling predicate this builder seeds every wrapped stage with.
    pub closed spec fn predicate(&self) -> F {
        *self.enable
    }

    /// The shared transform template.
    pub closed spec fn template(&self) -> T {
        *self.trans
    }

    /// Builds a combinator from the enabling predicate and the transform
    /// template. No request is processed and nothing can fail here.
    pub fn new(enable: F, trans: T) -> (c: Self)
        ensures
            c.predicate() == enable,
            c.template() == trans,
    {
        Self { trans: Arc::new(trans), enable: Arc::new(enable) }
    }

    /// Wraps a base stage: the wrapped stage starts in the base state,
    /// sharing this builder's predicate and template. One builder may wrap
    /// any number of stages; construction is infallible and processes no
    /// request.
    pub fn new_transform<B, V, IE>(&self, service: B) -> (m: ConditionMiddleware<T, B, V, F>) where
        T: Fn(B) -> Result<V, IE>,

        ensures
            m.predicate() == self.predicate(),
            m.template() == self.template(),
            m.state() == StateView::<B, V>::Base(service),
    {
        ConditionMiddleware {
            trans: self.trans.clone(),
            service: ServiceState::Unverified(Some(service)),
            enable: self.enable.clone(),
        }
    }
}

impl<T, B, V, F> ConditionMiddleware<T, B, V, F> {
    /// The enabling predicate of this instance.
    pub closed spec fn predicate(&self) -> F {
        *self.enable
    }

    /// The shared transform template of this instance.
    pub closed spec fn template(&self) -> T {
        *self.trans
    }

    /// The current state: the base stage, the transformed stage, or
    /// permanently failed.
    pub closed spec fn state(&self) -> StateView<B, V> {
        self.service@
    }

    /// The current phase of the abstract dispatch machine.
    pub open spec fn phase(&self) -> Phase {
        self.state().phase()
    }

    /// Hands out the transformed stage if the one-shot transition has
    /// already happened, and `None` (leaving the instance untouched)
    /// otherwise.
    pub fn get_verified(&mut self) -> (r: Option<&mut V>)
        ensures
            match r {
                Some(v) => {
                    &&& old(self).state() matches StateView::Transformed(t) && *v == t
                    &&& final(self).state() == StateView::<B, V>::Transformed(*final(v))
                    &&& final(self).predicate() == old(self).predicate()
                    &&& final(self).template() == old(self).template()
                },
                None => {
                    &&& !(old(self).state() is Transformed)
                    &&& *final(self) == *old(self)
                },
            },
    {
        self.service.get_verified()
    }

    /// Reports whether the instance can accept a request. Stages in this
    /// synchronous model are always ready, and the combinator neither
    /// buffers nor adds suspension points of its own, so readiness always
    /// holds; the check never changes the state, so it can be repeated
    /// freely without causing a transition.
    pub fn readiness_check(&mut self) -> (r: bool)
        ensures
            *final(self) == *old(self),
            r,
    {
        true
    }

    /// Routes one request, performing the one-shot transition if this is the
    /// first request the predicate accepts: the core algorithm.
    ///
    /// In the transformed state the request is forwarded to the transformed
    /// stage without consulting the predicate. In the base state the
    /// predicate reads the request: on false, the request goes to the base
    /// stage and the state is kept; on true, the base stage is handed to the
    /// transform template, the transformed stage is installed, and the same
    /// request is forwarded to it — unless realization fails, in which case
    /// the template's error is returned and the instance is permanently
    /// failed. In the failed state every request is rejected immediately
    /// with [`ConditionError::Failed`].
    pub fn dispatch<Req, Resp, E, IE>(&mut self, req: Req) -> (r: Result<
        Resp,
        ConditionError<E, IE>,
    >) where
        F: Fn(&Req) -> bool,
        B: Fn(Req) -> Result<Resp, E>,
        V: Fn(Req) -> Result<Resp, E>,
        T: Fn(B) -> Result<V, IE>,

        requires
            old(self).state() matches StateView::Base(b) ==> {
                &&& call_requires(old(self).predicate(), (&req,))
                &&& call_requires(b, (req,))
                &&& call_requires(old(self).template(), (b,))
                &&& forall|v: V|
                    call_ensures(old(self).template(), (b,), Ok(v)) ==> call_requires(v, (req,))
            },
            old(self).state() matches StateView::Transformed(v) ==> call_requires(v, (req,)),
        ensures
            final(self).predicate() == old(self).predicate(),
            final(self).template() == old(self).template(),
            dispatch_post(
                old(self).state(),
                old(self).predicate(),
                old(self).template(),
                req,
                final(self).state(),
                r,
            ),
    {
        match &mut self.service {
            ServiceState::Unverified(slot) => {
                match slot.take() {
                    None => {
                        return Err(ConditionError::Failed);
                    },
                    Some(base) => {
                        if (*self.enable)(&req) {
                            match (*self.trans)(base) {
                                Ok(transformed) => {
                                    self.service = ServiceState::Verified(transformed);
                                },
                                Err(init_err) => {
                                    return Err(ConditionError::Realization(init_err));
                                },
                            }
                        } else {
                            let out = base(req);
                            *slot = Some(base);
                            return match out {
                                Ok(resp) => Ok(resp),
                                Err(e) => Err(ConditionError::Inner(e)),
                            };
                        }
                    },
                }
            },
            ServiceState::Verified(_) => {},
        }
        match &self.service {
            ServiceState::Verified(transformed) => match (*transformed)(req) {
                Ok(resp) => Ok(resp),
                Err(e) => Err(ConditionError::Inner(e)),
            },
            ServiceState::Unverified(_) => vstd::pervasive::unreached(),
        }
    }
}

/// Every dispatch refines the abstract machine: there are a predicate
/// verdict and a realization outcome under which [`step`] carries the old
/// phase to the new one.
pub proof fn lemma_dispatch_follows_step<T, B, V, F, Req, Resp, E, IE>(
    pre: StateView<B, V>,
    enable: F,
    trans: T,
    req: Req,
    post: StateView<B, V>,
    r: Result<Resp, ConditionError<E, IE>>,
) where
    F: Fn(&Req) -> bool,
    B: Fn(Req) -> Result<Resp, E>,
    V: Fn(Req) -> Result<Resp, E>,
    T: Fn(B) -> Result<V, IE>,

    requires
        dispatch_post(pre, enable, trans, req, post, r),
    ensures
        exists|en: bool, ok: bool| post.phase() == #[trigger] step(pre.phase(), en, ok),
{
    match pre {
        StateView::Transformed(_) => {
            assert(post.phase() == step(pre.phase(), false, true));
        },
        StateView::Failed => {
            assert(post.phase() == step(pre.phase(), false, true));
        },
        StateView::Base(_) => {
            match post {
                StateView::Base(_) => {
                    assert(post.phase() == step(pre.phase(), false, true));
                },
                StateView::Transformed(_) => {
                    assert(post.phase() == step(pre.phase(), true, true));
                },
                StateView::Failed => {
                    assert(post.phase() == step(pre.phase(), true, false));
                },
            }
        },
    }
}

} // verus!
