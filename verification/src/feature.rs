//! The pluggable feature framework: an optional hard constraint, an optional
//! soft objective, and optional incremental state hooks.
//!
//! Each capability is a trait with a specification hook: an implementation
//! supplies a spec-level account of its own behaviour and proves that its
//! executable code matches it.  The driver combines features through these
//! traits alone and never inspects feature-internal state.

use vstd::prelude::*;

use crate::common::Cost;
use crate::context::InsertionContext;
use crate::context::MoveContext;
use crate::context::RouteContext;
use crate::context::SolutionContext;
use crate::model::Job;

verus! {

/// An opaque integer identifying which feature rejected a move.  Callers
/// assign codes per feature; no range is reserved.
#[derive(Clone, Copy, Debug, PartialEq, Eq, Hash, Structural)]
pub struct ViolationCode(pub i32);

/// A routine negative result of a hard constraint: the rejecting feature's
/// code, and whether the whole route is infeasible for the job (`stopped`)
/// or only this position.
#[derive(Clone, Copy, Debug, PartialEq, Eq, Structural)]
pub struct ConstraintViolation {
    pub code: ViolationCode,
    pub stopped: bool,
}

/// A hard constraint: a pure yes/no judgement on a candidate move, plus a
/// veto on merging two jobs into one unit.
pub trait FeatureConstraint {
    /// The inputs on which `evaluate` is defined.
    spec fn spec_evaluate_req(&self, move_ctx: &MoveContext<'_>) -> bool;

    /// What `evaluate` returns, as a pure function of the move context.
    spec fn spec_evaluate(&self, move_ctx: &MoveContext<'_>) -> Option<ConstraintViolation>;

    /// Judges a candidate move.  `None` accepts it; a violation rejects this
    /// position, or the whole route when `stopped` is set.
    fn evaluate(&self, move_ctx: &MoveContext<'_>) -> (r: Option<ConstraintViolation>)
        requires
            self.spec_evaluate_req(move_ctx),
        ensures
            r == self.spec_evaluate(move_ctx),
    ;

    /// What `merge` returns for the given source job.
    spec fn spec_merge(&self, source: Job, candidate: Job) -> Result<Job, ViolationCode>;

    /// Coalesces two jobs into one unit, or refuses with this feature's code
    /// when the merge cannot be shown safe.
    fn merge(&self, source: Job, candidate: Job) -> (r: Result<Job, ViolationCode>)
        ensures
            r == self.spec_merge(source, candidate),
    ;
}

/// A soft objective: a total cost over a whole solution, and a cheap marginal
/// estimate for one candidate move.
pub trait FeatureObjective {
    /// The inputs on which `fitness` is defined.
    spec fn spec_fitness_req(&self, solution: &InsertionContext) -> bool;

    /// What `fitness` returns for a solution.
    spec fn spec_fitness(&self, solution: &InsertionContext) -> Cost;

    /// The total cost contribution of this feature across the solution.
    fn fitness(&self, solution: &InsertionContext) -> (r: Cost)
        requires
            self.spec_fitness_req(solution),
        ensures
            r == self.spec_fitness(solution),
    ;

    /// The inputs on which `estimate` is defined.
    spec fn spec_estimate_req(&self, move_ctx: &MoveContext<'_>) -> bool;

    /// What `estimate` returns for a move.
    spec fn spec_estimate(&self, move_ctx: &MoveContext<'_>) -> Cost;

    /// The marginal cost of one candidate move.
    fn estimate(&self, move_ctx: &MoveContext<'_>) -> (r: Cost)
        requires
            self.spec_estimate_req(move_ctx),
        ensures
            r == self.spec_estimate(move_ctx),
    ;
}

/// Incremental state hooks, called by the driver after commits so cached
/// aggregates stay consistent.  A feature may implement any subset as
/// no-ops; cache correctness is the feature author's responsibility.
pub trait FeatureState {
    /// The inputs on which `accept_insertion` is defined.
    spec fn spec_accept_insertion_req(
        &self,
        solution_ctx: &SolutionContext,
        route_index: usize,
        job: &Job,
    ) -> bool;

    /// The state transition `accept_insertion` performs.
    spec fn spec_accept_insertion(
        &self,
        solution_ctx: SolutionContext,
        route_index: usize,
        job: &Job,
    ) -> SolutionContext;

    /// Called after a job is committed into the route at `route_index`.
    fn accept_insertion(&self, solution_ctx: &mut SolutionContext, route_index: usize, job: &Job)
        requires
            self.spec_accept_insertion_req(old(solution_ctx), route_index, job),
        ensures
            *final(solution_ctx) == self.spec_accept_insertion(*old(solution_ctx), route_index, job),
    ;

    /// The inputs on which `accept_route_state` is defined.
    spec fn spec_accept_route_state_req(&self, route_ctx: &RouteContext) -> bool;

    /// The state transition `accept_route_state` performs.
    spec fn spec_accept_route_state(&self, route_ctx: RouteContext) -> RouteContext;

    /// Called after any mutation of a single route's tour.
    fn accept_route_state(&self, route_ctx: &mut RouteContext)
        requires
            self.spec_accept_route_state_req(old(route_ctx)),
        ensures
            *final(route_ctx) == self.spec_accept_route_state(*old(route_ctx)),
    ;

    /// The inputs on which `accept_solution_state` is defined.
    spec fn spec_accept_solution_state_req(&self, solution_ctx: &SolutionContext) -> bool;

    /// The state transition `accept_solution_state` performs.
    spec fn spec_accept_solution_state(&self, solution_ctx: SolutionContext) -> SolutionContext;

    /// Called after a solution is finalized or restored.
    fn accept_solution_state(&self, solution_ctx: &mut SolutionContext)
        requires
            self.spec_accept_solution_state_req(old(solution_ctx)),
        ensures
            *final(solution_ctx) == self.spec_accept_solution_state(*old(solution_ctx)),
    ;
}

/// A named feature: up to one constraint, one objective and one state hook.
/// Slots a feature does not provide are `None`; an absent capability's type
/// parameter is `()`.
#[derive(Debug)]
pub struct Feature<C, O, S> {
    pub name: String,
    pub constraint: Option<C>,
    pub objective: Option<O>,
    pub state: Option<S>,
}

} // verus!
