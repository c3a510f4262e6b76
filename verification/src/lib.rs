//! A conditional middleware combinator for request-processing pipelines.
//!
//! Given a boolean predicate over incoming requests and a transform template
//! (a factory that upgrades a processing stage into an enhanced one), the
//! combinator wraps a base stage so that every request is either routed
//! through the base stage or — from the first request the predicate accepts
//! onwards — through the lazily materialized transformed stage. The
//! transition is a one-shot, sticky latch: it happens at most once per
//! wrapped instance, the predicate is never consulted again afterwards, and
//! the instance never reverts to the base stage.

mod middleware;
mod state;
mod transitions;

pub use middleware::Condition;
pub use middleware::ConditionError;
pub use middleware::ConditionMiddleware;
pub use middleware::base_verdict;
pub use middleware::dispatch_post;
pub use middleware::forwards_to;
pub use middleware::lemma_dispatch_follows_step;
pub use middleware::realization_outcome;
pub use state::ServiceState;
pub use state::StateView;
pub use transitions::Phase;
pub use transitions::Route;
pub use transitions::consult_count;
pub use transitions::consults;
pub use transitions::lemma_at_most_one_realization;
pub use transitions::lemma_consultations_stop;
pub use transitions::lemma_exactly_one_realization;
pub use transitions::lemma_failed_is_terminal;
pub use transitions::lemma_failed_rejects_all;
pub use transitions::lemma_never_enabled_stays_base;
pub use transitions::lemma_routes_len;
pub use transitions::lemma_run_append;
pub use transitions::lemma_step_ignores_predicate;
pub use transitions::lemma_transformed_is_terminal;
pub use transitions::lemma_transformed_routes_all;
pub use transitions::realization_count;
pub use transitions::realizes;
pub use transitions::route;
pub use transitions::routes;
pub use transitions::run;
pub use transitions::step;
