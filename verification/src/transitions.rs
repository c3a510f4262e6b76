//! The abstract dispatch machine of a wrapped stage.
//!
//! Each dispatch is summarized by two booleans: the predicate's verdict on
//! the request (`enabled`, consulted only in the base phase) and whether the
//! realization of the transformed stage succeeds (`realize_ok`, consulted
//! only on the single realizing dispatch). [`step`] gives the phase after one
//! dispatch, [`run`] after a whole sequence, and the counting functions say
//! how often the predicate is consulted, how often the transform template is
//! invoked, and where each request is routed. The lemmas state the laws of
//! the combinator: a never-enabled instance stays in the base phase and
//! routes everything to the base stage; the transform template is invoked at
//! most once ever, and exactly once as soon as one dispatch is enabled; and
//! once the instance has left the base phase the predicate is never
//! consulted again.

use vstd::prelude::*;

verus! {

/// The phase of a wrapped stage, with the stages themselves forgotten.
pub enum Phase {
    /// Still holding the base stage; the predicate decides each request.
    Base,
    /// Transformed; terminal.
    Transformed,
    /// A realization attempt failed; terminal.
    Failed,
}

/// Which inner stage one dispatch routes its request to.
pub enum Route {
    /// The request went to the base stage.
    ToBase,
    /// The request went to the transformed stage.
    ToTransformed,
    /// The request was rejected (a realization failure, on this dispatch or
    /// an earlier one).
    Rejected,
}

/// The phase after one dispatch arriving in phase `p`.
pub open spec fn step(p: Phase, enabled: bool, realize_ok: bool) -> Phase {
    match p {
        Phase::Base => if !enabled {
            Phase::Base
        } else if realize_ok {
            Phase::Transformed
        } else {
            Phase::Failed
        },
        Phase::Transformed => Phase::Transformed,
        Phase::Failed => Phase::Failed,
    }
}

/// Whether a dispatch arriving in phase `p` consults the predicate.
pub open spec fn consults(p: Phase) -> bool {
    p is Base
}

/// Whether a dispatch arriving in phase `p` with predicate verdict `enabled`
/// invokes the transform template.
pub open spec fn realizes(p: Phase, enabled: bool) -> bool {
    p is Base && enabled
}

/// Where a dispatch arriving in phase `p` routes its request.
pub open spec fn route(p: Phase, enabled: bool, realize_ok: bool) -> Route {
    match p {
        Phase::Base => if !enabled {
            Route::ToBase
        } else if realize_ok {
            Route::ToTransformed
        } else {
            Route::Rejected
        },
        Phase::Transformed => Route::ToTransformed,
        Phase::Failed => Route::Rejected,
    }
}

/// The phase after a run of dispatches whose predicate verdicts are
/// `enabled` and whose realization outcomes (consulted only on a realizing
/// dispatch) are `ok`, in order.
pub open spec fn run(p: Phase, enabled: Seq<bool>, ok: Seq<bool>) -> Phase
    decreases enabled.len(),
{
    if enabled.len() == 0 {
        p
    } else {
        run(step(p, enabled[0], ok[0]), enabled.drop_first(), ok.drop_first())
    }
}

/// How many dispatches of a run invoke the transform template.
pub open spec fn realization_count(p: Phase, enabled: Seq<bool>, ok: Seq<bool>) -> nat
    decreases enabled.len(),
{
    if enabled.len() == 0 {
        0
    } else {
        (if realizes(p, enabled[0]) {
            1nat
        } else {
            0nat
        }) + realization_count(step(p, enabled[0], ok[0]), enabled.drop_first(), ok.drop_first())
    }
}

/// How many dispatches of a run consult the predicate.
pub open spec fn consult_count(p: Phase, enabled: Seq<bool>, ok: Seq<bool>) -> nat
    decreases enabled.len(),
{
    if enabled.len() == 0 {
        0
    } else {
        (if consults(p) {
            1nat
        } else {
            0nat
        }) + consult_count(step(p, enabled[0], ok[0]), enabled.drop_first(), ok.drop_first())
    }
}

/// Where each dispatch of a run routes its request, in order.
pub open spec fn routes(p: Phase, enabled: Seq<bool>, ok: Seq<bool>) -> Seq<Route>
    decreases enabled.len(),
{
    if enabled.len() == 0 {
        Seq::empty()
    } else {
        seq![route(p, enabled[0], ok[0])] + routes(
            step(p, enabled[0], ok[0]),
            enabled.drop_first(),
            ok.drop_first(),
        )
    }
}

/// A run routes one request per dispatch.
pub proof fn lemma_routes_len(p: Phase, enabled: Seq<bool>, ok: Seq<bool>)
    ensures
        routes(p, enabled, ok).len() == enabled.len(),
    decreases enabled.len(),
{
    if enabled.len() > 0 {
        lemma_routes_len(step(p, enabled[0], ok[0]), enabled.drop_first(), ok.drop_first());
    }
}

/// If the predicate rejects every request of a run starting in the base
/// phase, the instance stays in the base phase, the transform template is
/// never invoked, and every request is routed to the base stage.
pub proof fn lemma_never_enabled_stays_base(enabled: Seq<bool>, ok: Seq<bool>)
    requires
        forall|i: int| 0 <= i < enabled.len() ==> !enabled[i],
    ensures
        run(Phase::Base, enabled, ok) == Phase::Base,
        realization_count(Phase::Base, enabled, ok) == 0,
        routes(Phase::Base, enabled, ok).len() == enabled.len(),
        forall|i: int|
            0 <= i < enabled.len() ==> routes(Phase::Base, enabled, ok)[i] == Route::ToBase,
    decreases enabled.len(),
{
    lemma_routes_len(Phase::Base, enabled, ok);
    if enabled.len() > 0 {
        let rest_e = enabled.drop_first();
        let rest_o = ok.drop_first();
        assert(forall|i: int| 0 <= i < rest_e.len() ==> !rest_e[i]);
        lemma_never_enabled_stays_base(rest_e, rest_o);
        assert(step(Phase::Base, enabled[0], ok[0]) == Phase::Base);
        assert forall|i: int| 0 <= i < enabled.len() implies routes(Phase::Base, enabled, ok)[i]
            == Route::ToBase by {
            if i > 0 {
                assert(routes(Phase::Base, enabled, ok)[i] == routes(Phase::Base, rest_e, rest_o)[
                    i - 1
                ]);
            }
        }
    }
}

/// Whatever the predicate and the realization outcomes, a run invokes the
/// transform template at most once; a run that does not start in the base
/// phase never invokes it at all.
pub proof fn lemma_at_most_one_realization(p: Phase, enabled: Seq<bool>, ok: Seq<bool>)
    ensures
        realization_count(p, enabled, ok) <= 1,
        !(p is Base) ==> realization_count(p, enabled, ok) == 0,
    decreases enabled.len(),
{
    if enabled.len() > 0 {
        lemma_at_most_one_realization(
            step(p, enabled[0], ok[0]),
            enabled.drop_first(),
            ok.drop_first(),
        );
    }
}

/// As soon as the predicate accepts one request of a run starting in the
/// base phase, the transform template is invoked exactly once over the whole
/// run, however many dispatches follow.
pub proof fn lemma_exactly_one_realization(enabled: Seq<bool>, ok: Seq<bool>)
    requires
        exists|i: int| 0 <= i < enabled.len() && enabled[i],
    ensures
        realization_count(Phase::Base, enabled, ok) == 1,
    decreases enabled.len(),
{
    let w = choose|i: int| 0 <= i < enabled.len() && enabled[i];
    if enabled[0] {
        lemma_at_most_one_realization(
            step(Phase::Base, enabled[0], ok[0]),
            enabled.drop_first(),
            ok.drop_first(),
        );
    } else {
        let rest_e = enabled.drop_first();
        let rest_o = ok.drop_first();
        assert(0 <= w - 1 < rest_e.len() && rest_e[w - 1]);
        lemma_exactly_one_realization(rest_e, rest_o);
    }
}

/// The transformed phase is terminal: it survives any further run, and such
/// a run neither consults the predicate nor invokes the transform template.
pub proof fn lemma_transformed_is_terminal(enabled: Seq<bool>, ok: Seq<bool>)
    ensures
        run(Phase::Transformed, enabled, ok) == Phase::Transformed,
        consult_count(Phase::Transformed, enabled, ok) == 0,
        realization_count(Phase::Transformed, enabled, ok) == 0,
    decreases enabled.len(),
{
    if enabled.len() > 0 {
        lemma_transformed_is_terminal(enabled.drop_first(), ok.drop_first());
    }
}

/// The failed phase is terminal as well, and equally beyond the predicate
/// and the transform template.
pub proof fn lemma_failed_is_terminal(enabled: Seq<bool>, ok: Seq<bool>)
    ensures
        run(Phase::Failed, enabled, ok) == Phase::Failed,
        consult_count(Phase::Failed, enabled, ok) == 0,
        realization_count(Phase::Failed, enabled, ok) == 0,
    decreases enabled.len(),
{
    if enabled.len() > 0 {
        lemma_failed_is_terminal(enabled.drop_first(), ok.drop_first());
    }
}

/// The latch is sticky: once transformed, every request of any further run
/// is routed to the transformed stage.
pub proof fn lemma_transformed_routes_all(enabled: Seq<bool>, ok: Seq<bool>)
    ensures
        routes(Phase::Transformed, enabled, ok).len() == enabled.len(),
        forall|i: int|
            0 <= i < enabled.len() ==> routes(Phase::Transformed, enabled, ok)[i]
                == Route::ToTransformed,
    decreases enabled.len(),
{
    lemma_routes_len(Phase::Transformed, enabled, ok);
    if enabled.len() > 0 {
        let rest_e = enabled.drop_first();
        let rest_o = ok.drop_first();
        lemma_transformed_routes_all(rest_e, rest_o);
        assert forall|i: int| 0 <= i < enabled.len() implies routes(
            Phase::Transformed,
            enabled,
            ok,
        )[i] == Route::ToTransformed by {
            if i > 0 {
                assert(routes(Phase::Transformed, enabled, ok)[i] == routes(
                    Phase::Transformed,
                    rest_e,
                    rest_o,
                )[i - 1]);
            }
        }
    }
}

/// Failure is fatal: once permanently failed, every request of any further
/// run is rejected.
pub proof fn lemma_failed_rejects_all(enabled: Seq<bool>, ok: Seq<bool>)
    ensures
        routes(Phase::Failed, enabled, ok).len() == enabled.len(),
        forall|i: int|
            0 <= i < enabled.len() ==> routes(Phase::Failed, enabled, ok)[i] == Route::Rejected,
    decreases enabled.len(),
{
    lemma_routes_len(Phase::Failed, enabled, ok);
    if enabled.len() > 0 {
        let rest_e = enabled.drop_first();
        let rest_o = ok.drop_first();
        lemma_failed_rejects_all(rest_e, rest_o);
        assert forall|i: int| 0 <= i < enabled.len() implies routes(Phase::Failed, enabled, ok)[i]
            == Route::Rejected by {
            if i > 0 {
                assert(routes(Phase::Failed, enabled, ok)[i] == routes(
                    Phase::Failed,
                    rest_e,
                    rest_o,
                )[i - 1]);
            }
        }
    }
}

/// Outside the base phase a dispatch ignores the predicate: the next phase
/// is the same whatever the predicate would have said.
pub proof fn lemma_step_ignores_predicate(p: Phase, en1: bool, en2: bool, realize_ok: bool)
    requires
        !(p is Base),
    ensures
        step(p, en1, realize_ok) == step(p, en2, realize_ok),
{
}

/// Running a concatenated sequence of dispatches is running the two parts in
/// order, and the consultation and realization counts add up.
pub proof fn lemma_run_append(p: Phase, e1: Seq<bool>, o1: Seq<bool>, e2: Seq<bool>, o2: Seq<bool>)
    requires
        e1.len() == o1.len(),
    ensures
        run(p, e1 + e2, o1 + o2) == run(run(p, e1, o1), e2, o2),
        consult_count(p, e1 + e2, o1 + o2) == consult_count(p, e1, o1) + consult_count(
            run(p, e1, o1),
            e2,
            o2,
        ),
        realization_count(p, e1 + e2, o1 + o2) == realization_count(p, e1, o1)
            + realization_count(run(p, e1, o1), e2, o2),
    decreases e1.len(),
{
    if e1.len() == 0 {
        assert(e1 + e2 =~= e2);
        assert(o1 + o2 =~= o2);
    } else {
        let q = step(p, e1[0], o1[0]);
        assert((e1 + e2).drop_first() =~= e1.drop_first() + e2);
        assert((o1 + o2).drop_first() =~= o1.drop_first() + o2);
        lemma_run_append(q, e1.drop_first(), o1.drop_first(), e2, o2);
    }
}

/// Once a run has left the base phase, however the run continues, the
/// consultation count stops increasing: the predicate is never evaluated
/// again.
pub proof fn lemma_consultations_stop(
    p: Phase,
    e1: Seq<bool>,
    o1: Seq<bool>,
    e2: Seq<bool>,
    o2: Seq<bool>,
)
    requires
        e1.len() == o1.len(),
        !(run(p, e1, o1) is Base),
    ensures
        consult_count(p, e1 + e2, o1 + o2) == consult_count(p, e1, o1),
        realization_count(p, e1 + e2, o1 + o2) == realization_count(p, e1, o1),
{
    lemma_run_append(p, e1, o1, e2, o2);
    match run(p, e1, o1) {
        Phase::Base => {
            assert(false);
        },
        Phase::Transformed => {
            lemma_transformed_is_terminal(e2, o2);
        },
        Phase::Failed => {
            lemma_failed_is_terminal(e2, o2);
        },
    }
}

} // verus!
