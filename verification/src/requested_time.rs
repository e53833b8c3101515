//! A soft objective that penalises deviation from requested arrival times.
//!
//! Jobs may attach a requested arrival timestamp to each of their places.  The
//! objective charges a linear, asymmetric penalty per second of deviation:
//! early arrivals are charged at one rate, late arrivals at another, and an
//! arrival exactly on the requested time costs nothing.

use vstd::prelude::*;

use crate::common::Cost;
use crate::common::GenericError;
use crate::common::Timestamp;
use crate::common::MAX_TIME;
use crate::context::InsertionContext;
use crate::context::MoveContext;
use crate::context::RouteContext;
use crate::feature::Feature;
use crate::feature::FeatureObjective;
use crate::model::Activity;
use crate::ride_duration::spec_arrival;
use crate::transport::TransportCosts;

verus! {

/// Requested arrival times for the places of a job, keyed by place index.
///
/// Lookups return the first entry recorded for an index; the problem reader
/// records at most one entry per place.
#[derive(Debug)]
pub struct RequestedTimes {
    entries: Vec<(usize, Timestamp)>,
}

/// The requested time recorded for place index `idx`, if any.
pub open spec fn requested_time_of(s: Seq<(usize, Timestamp)>, idx: int) -> Option<Timestamp>
    decreases s.len(),
{
    if s.len() == 0 {
        None
    } else if s[0].0 == idx {
        Some(s[0].1)
    } else {
        requested_time_of(s.drop_first(), idx)
    }
}

impl View for RequestedTimes {
    type V = Seq<(usize, Timestamp)>;

    closed spec fn view(&self) -> Seq<(usize, Timestamp)> {
        self.entries@
    }
}

impl RequestedTimes {
    pub fn new() -> (r: RequestedTimes)
        ensures
            r@ == Seq::<(usize, Timestamp)>::empty(),
    {
        RequestedTimes { entries: Vec::new() }
    }

    pub fn len(&self) -> (r: usize)
        ensures
            r == self@.len(),
    {
        self.entries.len()
    }

    pub fn is_empty(&self) -> (r: bool)
        ensures
            r == (self@.len() == 0),
    {
        self.entries.len() == 0
    }

    /// Records a requested time for a place index.
    pub fn insert(&mut self, idx: usize, t: Timestamp)
        ensures
            final(self)@ == old(self)@.push((idx, t)),
    {
        self.entries.push((idx, t));
    }

    /// Returns the requested time for a place index, if one was recorded.
    pub fn get(&self, idx: usize) -> (r: Option<Timestamp>)
        ensures
            r == requested_time_of(self@, idx as int),
    {
        let mut i: usize = 0;
        proof {
            assert(self@.subrange(0, self@.len() as int) =~= self@);
        }
        while i < self.entries.len()
            invariant
                i <= self.entries.len(),
                requested_time_of(self@, idx as int) == requested_time_of(
                    self@.subrange(i as int, self@.len() as int),
                    idx as int,
                ),
            decreases self.entries.len() - i,
        {
            proof {
                let rest = self@.subrange(i as int, self@.len() as int);
                assert(rest[0] == self@[i as int]);
                assert(rest.drop_first() =~= self@.subrange(i as int + 1, self@.len() as int));
            }
            if self.entries[i].0 == idx {
                return Some(self.entries[i].1);
            }
            i = i + 1;
        }
        proof {
            assert(self@.subrange(self@.len() as int, self@.len() as int) =~= Seq::<(
                usize,
                Timestamp,
            )>::empty());
        }
        None
    }
}

impl Clone for RequestedTimes {
    fn clone(&self) -> (r: Self)
        ensures
            r@ == self@,
    {
        let mut out: Vec<(usize, Timestamp)> = Vec::new();
        let mut i: usize = 0;
        while i < self.entries.len()
            invariant
                i <= self.entries.len(),
                out@ == self@.subrange(0, i as int),
            decreases self.entries.len() - i,
        {
            out.push(self.entries[i]);
            proof {
                assert(out@ =~= self@.subrange(0, i as int + 1));
            }
            i = i + 1;
        }
        proof {
            assert(self@.subrange(0, self@.len() as int) =~= self@);
        }
        RequestedTimes { entries: out }
    }
}

/// Penalty rates for requested-time deviation, in cost milli-units per minute
/// of deviation.  Rates are 32-bit so that penalty products stay within range.
#[derive(Clone, Copy, Debug, PartialEq, Eq, Structural)]
pub struct RequestedTimePenalty {
    /// Rate charged per minute of early arrival, in cost milli-units.
    pub early_per_minute: u32,
    /// Rate charged per minute of late arrival, in cost milli-units.
    pub late_per_minute: u32,
}

/// The penalty charged for arriving at `arrival` when `requested` was asked
/// for: linear in the deviation, asymmetric in direction, zero on exact match.
pub open spec fn spec_requested_penalty(
    p: RequestedTimePenalty,
    arrival: int,
    requested: int,
) -> int {
    if arrival < requested {
        (requested - arrival) * p.early_per_minute / 60
    } else {
        (arrival - requested) * p.late_per_minute / 60
    }
}

impl Default for RequestedTimePenalty {
    /// One cost unit per minute of deviation, in either direction.
    fn default() -> (r: Self)
        ensures
            r.early_per_minute == 1000,
            r.late_per_minute == 1000,
    {
        RequestedTimePenalty { early_per_minute: 1000, late_per_minute: 1000 }
    }
}

impl RequestedTimePenalty {
    /// Creates a penalty configuration from per-minute rates in milli-units.
    pub fn new(early_per_minute: u32, late_per_minute: u32) -> (r: Self)
        ensures
            r.early_per_minute == early_per_minute,
            r.late_per_minute == late_per_minute,
    {
        RequestedTimePenalty { early_per_minute, late_per_minute }
    }

    /// Calculates the penalty for a given deviation from the requested time.
    pub fn calculate_penalty(&self, arrival: Timestamp, requested: Timestamp) -> (r: Cost)
        requires
            spec_requested_penalty(*self, arrival as int, requested as int) <= u64::MAX,
        ensures
            r == spec_requested_penalty(*self, arrival as int, requested as int),
    {
        let deviation: u64 = if arrival < requested {
            requested - arrival
        } else {
            arrival - requested
        };
        let rate: u64 = if arrival < requested {
            self.early_per_minute as u64
        } else {
            self.late_per_minute as u64
        };
        let product: u128 = (deviation as u128) * (rate as u128);
        let scaled: u128 = product / 60;
        proof {
            assert(scaled == spec_requested_penalty(*self, arrival as int, requested as int));
        }
        scaled as u64
    }
}

/// The penalty of an activity at a given arrival: present only when the
/// activity serves a job that requested a time for the chosen place.
pub open spec fn spec_activity_penalty_with_arrival(
    p: RequestedTimePenalty,
    activity: Activity,
    arrival: int,
) -> Option<int> {
    match activity.job {
        None => None,
        Some(single) => match single.dimens@.job_requested_times {
            None => None,
            Some(rt) => match requested_time_of(rt, activity.place.idx as int) {
                None => None,
                Some(requested) => Some(spec_requested_penalty(p, arrival, requested as int)),
            },
        },
    }
}

/// The committed penalty of an activity, by its scheduled arrival; zero when
/// no time was requested.
pub open spec fn spec_activity_penalty_value(p: RequestedTimePenalty, activity: Activity) -> int {
    match spec_activity_penalty_with_arrival(p, activity, activity.schedule.arrival as int) {
        Some(v) => v,
        None => 0,
    }
}

/// The summed committed penalty of the first `n` activities of a route.
pub open spec fn spec_route_requested_upto(
    p: RequestedTimePenalty,
    route_ctx: RouteContext,
    n: int,
) -> int
    decreases n,
{
    if n <= 0 {
        0
    } else {
        spec_route_requested_upto(p, route_ctx, n - 1) + spec_activity_penalty_value(
            p,
            route_ctx.route.tour.activities@[n - 1],
        )
    }
}

/// The summed committed penalty of a route.
pub open spec fn spec_route_requested(p: RequestedTimePenalty, route_ctx: RouteContext) -> int {
    spec_route_requested_upto(p, route_ctx, route_ctx.route.tour.activities@.len() as int)
}

/// The summed committed penalty of the first `n` routes of a solution.
pub open spec fn spec_requested_fitness_upto(
    p: RequestedTimePenalty,
    ctx: crate::context::SolutionContext,
    n: int,
) -> int
    decreases n,
{
    if n <= 0 {
        0
    } else {
        spec_requested_fitness_upto(p, ctx, n - 1) + spec_route_requested(p, ctx.routes@[n - 1])
    }
}

/// The summed committed penalty over the whole solution.
pub open spec fn spec_requested_fitness(
    p: RequestedTimePenalty,
    ctx: crate::context::SolutionContext,
) -> int {
    spec_requested_fitness_upto(p, ctx, ctx.routes@.len() as int)
}

/// A requested-time penalty is never negative.
pub proof fn lemma_requested_penalty_nonneg(p: RequestedTimePenalty, arrival: int, requested: int)
    ensures
        spec_requested_penalty(p, arrival, requested) >= 0,
{
    if arrival < requested {
        crate::common::lemma_mul_bounds(
            requested - arrival,
            p.early_per_minute as int,
            requested - arrival,
            p.early_per_minute as int,
        );
        crate::common::lemma_div_bounds((requested - arrival) * p.early_per_minute, 60);
    } else {
        crate::common::lemma_mul_bounds(
            arrival - requested,
            p.late_per_minute as int,
            arrival - requested,
            p.late_per_minute as int,
        );
        crate::common::lemma_div_bounds((arrival - requested) * p.late_per_minute, 60);
    }
}

/// An activity's committed penalty is never negative.
pub proof fn lemma_activity_penalty_nonneg(p: RequestedTimePenalty, activity: Activity)
    ensures
        spec_activity_penalty_value(p, activity) >= 0,
{
    match spec_activity_penalty_with_arrival(p, activity, activity.schedule.arrival as int) {
        Some(v) => {
            match activity.job {
                Some(single) => match single.dimens@.job_requested_times {
                    Some(rt) => match requested_time_of(rt, activity.place.idx as int) {
                        Some(requested) => {
                            lemma_requested_penalty_nonneg(
                                p,
                                activity.schedule.arrival as int,
                                requested as int,
                            );
                        },
                        None => {},
                    },
                    None => {},
                },
                None => {},
            }
        },
        None => {},
    }
}

/// Prefix sums of route penalties grow monotonically.
pub proof fn lemma_route_requested_upto_monotonic(
    p: RequestedTimePenalty,
    route_ctx: RouteContext,
    i: int,
    n: int,
)
    requires
        0 <= i <= n,
    ensures
        spec_route_requested_upto(p, route_ctx, i) <= spec_route_requested_upto(p, route_ctx, n),
    decreases n - i,
{
    if i < n {
        lemma_route_requested_upto_monotonic(p, route_ctx, i, n - 1);
        lemma_activity_penalty_nonneg(p, route_ctx.route.tour.activities@[n - 1]);
    }
}

/// Prefix sums of the solution fitness grow monotonically.
pub proof fn lemma_requested_fitness_upto_monotonic(
    p: RequestedTimePenalty,
    ctx: crate::context::SolutionContext,
    i: int,
    n: int,
)
    requires
        0 <= i <= n,
    ensures
        spec_requested_fitness_upto(p, ctx, i) <= spec_requested_fitness_upto(p, ctx, n),
    decreases n - i,
{
    if i < n {
        lemma_requested_fitness_upto_monotonic(p, ctx, i, n - 1);
        lemma_route_requested_upto_monotonic(
            p,
            ctx.routes@[n - 1],
            0,
            ctx.routes@[n - 1].route.tour.activities@.len() as int,
        );
    }
}

/// The soft objective penalising deviation from requested arrival times.
/// It is pure: no state hook, everything recomputed on demand.
#[derive(Debug)]
pub struct RequestedTimeObjective {
    pub penalty: RequestedTimePenalty,
    pub transport: TransportCosts,
}

impl RequestedTimeObjective {
    /// The penalty of an activity by its committed schedule, if a time was
    /// requested for its place.
    pub fn calculate_activity_penalty(&self, activity: &Activity) -> (r: Option<Cost>)
        requires
            (spec_activity_penalty_with_arrival(
                self.penalty,
                *activity,
                activity.schedule.arrival as int,
            ) matches Some(v) ==> v <= u64::MAX),
        ensures
            (match spec_activity_penalty_with_arrival(
                self.penalty,
                *activity,
                activity.schedule.arrival as int,
            ) {
                Some(v) => r == Some(v as Cost),
                None => r is None,
            }),
    {
        self.calculate_activity_penalty_with_arrival(activity, activity.schedule.arrival)
    }

    /// The penalty of an activity at a hypothetical arrival, if a time was
    /// requested for its place.
    pub fn calculate_activity_penalty_with_arrival(
        &self,
        activity: &Activity,
        arrival: Timestamp,
    ) -> (r: Option<Cost>)
        requires
            (spec_activity_penalty_with_arrival(self.penalty, *activity, arrival as int)
                matches Some(v) ==> v <= u64::MAX),
        ensures
            (match spec_activity_penalty_with_arrival(self.penalty, *activity, arrival as int) {
                Some(v) => r == Some(v as Cost),
                None => r is None,
            }),
    {
        let single = match &activity.job {
            Some(s) => s,
            None => {
                return None;
            },
        };
        let requested_times = match single.dimens.get_job_requested_times() {
            Some(t) => t,
            None => {
                return None;
            },
        };
        let requested_time = match requested_times.get(activity.place.idx) {
            Some(t) => t,
            None => {
                return None;
            },
        };
        Some(self.penalty.calculate_penalty(arrival, requested_time))
    }
}

impl FeatureObjective for RequestedTimeObjective {
    open spec fn spec_fitness_req(&self, solution: &InsertionContext) -> bool {
        &&& spec_requested_fitness(self.penalty, solution.solution) <= u64::MAX
        &&& forall|i: int, j: int|
            {
                0 <= i < solution.solution.routes@.len() && 0 <= j
                    < solution.solution.routes@[i].route.tour.activities@.len()
                    ==> (spec_activity_penalty_with_arrival(
                    self.penalty,
                    #[trigger] solution.solution.routes@[i].route.tour.activities@[j],
                    solution.solution.routes@[i].route.tour.activities@[j].schedule.arrival as int,
                ) matches Some(v) ==> v <= u64::MAX)
            }
    }

    open spec fn spec_fitness(&self, solution: &InsertionContext) -> Cost {
        spec_requested_fitness(self.penalty, solution.solution) as Cost
    }

    /// Sums the committed per-activity penalty across the whole solution,
    /// using each activity's fixed schedule.
    fn fitness(&self, solution: &InsertionContext) -> (r: Cost) {
        let ctx = &solution.solution;
        let n = ctx.routes.len();
        let mut total: u64 = 0;
        let mut i: usize = 0;
        while i < n
            invariant
                n == ctx.routes@.len(),
                ctx == &solution.solution,
                i <= n,
                self.spec_fitness_req(solution),
                total == spec_requested_fitness_upto(self.penalty, *ctx, i as int),
            decreases n - i,
        {
            let route_ctx = &ctx.routes[i];
            let activities = route_ctx.route().tour.all_activities();
            let m = activities.len();
            let mut route_total: u64 = 0;
            let mut j: usize = 0;
            while j < m
                invariant
                    n == ctx.routes@.len(),
                    ctx == &solution.solution,
                    i < n,
                    route_ctx == &ctx.routes@[i as int],
                    m == route_ctx.route.tour.activities@.len(),
                    activities == &route_ctx.route.tour.activities,
                    j <= m,
                    self.spec_fitness_req(solution),
                    total == spec_requested_fitness_upto(self.penalty, *ctx, i as int),
                    route_total == spec_route_requested_upto(self.penalty, *route_ctx, j as int),
                    total + route_total <= u64::MAX,
                decreases m - j,
            {
                proof {
                    lemma_route_requested_upto_monotonic(
                        self.penalty,
                        *route_ctx,
                        j as int + 1,
                        m as int,
                    );
                    lemma_activity_penalty_nonneg(
                        self.penalty,
                        route_ctx.route.tour.activities@[j as int],
                    );
                    lemma_requested_fitness_upto_monotonic(self.penalty, *ctx, i as int + 1, n as int);
                    lemma_requested_fitness_upto_monotonic(self.penalty, *ctx, 0, i as int);
                }
                let p = match self.calculate_activity_penalty(&activities[j]) {
                    Some(p) => p,
                    None => 0,
                };
                route_total = route_total + p;
                j = j + 1;
            }
            proof {
                lemma_requested_fitness_upto_monotonic(self.penalty, *ctx, i as int + 1, n as int);
                lemma_route_requested_upto_monotonic(self.penalty, *route_ctx, 0, m as int);
            }
            total = total + route_total;
            i = i + 1;
        }
        total
    }

    open spec fn spec_estimate_req(&self, move_ctx: &MoveContext<'_>) -> bool {
        move_ctx matches MoveContext::Activity { activity_ctx, .. } ==> {
            &&& activity_ctx.prev.schedule.departure <= MAX_TIME
            &&& (spec_activity_penalty_with_arrival(
                self.penalty,
                *activity_ctx.target,
                spec_arrival(self.transport, *activity_ctx.prev, *activity_ctx.target),
            ) matches Some(v) ==> v <= u64::MAX)
        }
    }

    open spec fn spec_estimate(&self, move_ctx: &MoveContext<'_>) -> Cost {
        match move_ctx {
            MoveContext::Route { .. } => 0,
            MoveContext::Activity { activity_ctx, .. } => {
                match spec_activity_penalty_with_arrival(
                    self.penalty,
                    *activity_ctx.target,
                    spec_arrival(self.transport, *activity_ctx.prev, *activity_ctx.target),
                ) {
                    Some(v) => v as Cost,
                    None => 0,
                }
            },
        }
    }

    /// Estimates the penalty of an activity-level move at the arrival the
    /// insertion would actually produce — travel from the previous activity's
    /// departure — not at the target's uncommitted schedule.
    fn estimate(&self, move_ctx: &MoveContext<'_>) -> (r: Cost) {
        match move_ctx {
            MoveContext::Route { .. } => 0,
            MoveContext::Activity { activity_ctx, .. } => {
                let prev = activity_ctx.prev;
                let target = activity_ctx.target;
                let travel = self.transport.duration(prev.place.location, target.place.location);
                let arrival = prev.schedule.departure + travel;
                match self.calculate_activity_penalty_with_arrival(target, arrival) {
                    Some(p) => p,
                    None => 0,
                }
            },
        }
    }
}

/// Creates the requested-time feature as a pure soft objective; construction
/// never fails for these inputs.
pub fn create_requested_time_feature(
    name: &str,
    penalty: RequestedTimePenalty,
    transport: TransportCosts,
) -> (r: Result<Feature<(), RequestedTimeObjective, ()>, GenericError>)
    ensures
        (r matches Ok(f) ==> {
            &&& f.name@ == name@
            &&& f.constraint is None
            &&& f.objective == Some(RequestedTimeObjective { penalty, transport })
            &&& f.state is None
        }),
        r is Ok,
{
    Ok(
        Feature {
            name: String::from_str(name),
            constraint: None,
            objective: Some(RequestedTimeObjective { penalty, transport }),
            state: None,
        },
    )
}

/// An arrival exactly on the requested time is never penalised.
pub proof fn lemma_requested_penalty_zero_on_exact(p: RequestedTimePenalty, t: int)
    ensures
        spec_requested_penalty(p, t, t) == 0,
{
}

/// The penalty is asymmetric: the same deviation is charged at the early rate
/// when early and at the late rate when late.
pub proof fn lemma_requested_penalty_asymmetric(p: RequestedTimePenalty, requested: int, dev: int)
    requires
        dev > 0,
    ensures
        spec_requested_penalty(p, requested - dev, requested) == dev * p.early_per_minute / 60,
        spec_requested_penalty(p, requested + dev, requested) == dev * p.late_per_minute / 60,
{
}

} // verus!
