//! Route and solution contexts, and the shape of a candidate move.

use vstd::prelude::*;

use crate::common::Cost;
use crate::model::Activity;
use crate::model::Job;
use crate::model::Route;

verus! {

/// A committed route: the tour and its actor.  Features re-derive any cached
/// route state from it, so it is cheap to clone and discard.
#[derive(Debug)]
pub struct RouteContext {
    pub route: Route,
}

impl RouteContext {
    pub fn new(route: Route) -> (r: RouteContext)
        ensures
            r.route == route,
    {
        RouteContext { route }
    }

    pub fn route(&self) -> (r: &Route)
        ensures
            *r == self.route,
    {
        &self.route
    }
}

/// Solution-scoped cached feature state.
#[derive(Debug)]
pub struct SolutionState {
    preferences_fitness: Option<Cost>,
}

impl SolutionState {
    /// The cached preferences fitness, if one was stored.
    pub closed spec fn spec_preferences_fitness(self) -> Option<Cost> {
        self.preferences_fitness
    }

    /// The state whose only cached value is a preferences fitness of `c`.
    pub closed spec fn spec_with_preferences_fitness(c: Cost) -> SolutionState {
        SolutionState { preferences_fitness: Some(c) }
    }

    pub fn get_preferences_fitness(&self) -> (r: Option<Cost>)
        ensures
            r == self.spec_preferences_fitness(),
    {
        self.preferences_fitness
    }

    pub fn set_preferences_fitness(&mut self, fitness: Cost)
        ensures
            *final(self) == SolutionState::spec_with_preferences_fitness(fitness),
    {
        self.preferences_fitness = Some(fitness);
    }
}

impl Default for SolutionState {
    fn default() -> (r: Self)
        ensures
            r.spec_preferences_fitness() is None,
    {
        SolutionState { preferences_fitness: None }
    }
}

/// All route contexts of a candidate solution, its unassigned jobs, and
/// solution-scoped cached feature state.
#[derive(Debug)]
pub struct SolutionContext {
    pub routes: Vec<RouteContext>,
    pub unassigned: Vec<Job>,
    pub state: SolutionState,
}

/// A whole candidate solution as handed to an objective's fitness query.
#[derive(Debug)]
pub struct InsertionContext {
    pub solution: SolutionContext,
}

/// A specific activity considered for insertion into a leg of an existing
/// tour: `prev` is the activity the leg starts at, `next` the one that
/// currently follows (absent at the tour's tail), and `index` identifies the
/// leg being split.
#[derive(Debug)]
pub struct ActivityContext<'a> {
    pub index: usize,
    pub prev: &'a Activity,
    pub target: &'a Activity,
    pub next: Option<&'a Activity>,
}

/// The two shapes of a candidate move: a job considered for a route with no
/// position chosen yet, or a concrete activity at a concrete leg.
#[derive(Debug)]
pub enum MoveContext<'a> {
    Route {
        solution_ctx: &'a SolutionContext,
        route_ctx: &'a RouteContext,
        job: &'a Job,
    },
    Activity {
        solution_ctx: &'a SolutionContext,
        route_ctx: &'a RouteContext,
        activity_ctx: &'a ActivityContext<'a>,
    },
}

impl<'a> MoveContext<'a> {
    pub fn route(
        solution_ctx: &'a SolutionContext,
        route_ctx: &'a RouteContext,
        job: &'a Job,
    ) -> (r: MoveContext<'a>)
        ensures
            r == (MoveContext::Route { solution_ctx, route_ctx, job }),
    {
        MoveContext::Route { solution_ctx, route_ctx, job }
    }

    pub fn activity(
        solution_ctx: &'a SolutionContext,
        route_ctx: &'a RouteContext,
        activity_ctx: &'a ActivityContext<'a>,
    ) -> (r: MoveContext<'a>)
        ensures
            r == (MoveContext::Activity { solution_ctx, route_ctx, activity_ctx }),
    {
        MoveContext::Activity { solution_ctx, route_ctx, activity_ctx }
    }
}

} // verus!
