//! A maximum ride duration constraint for pickup/delivery pairs (hard).
//!
//! The elapsed time between a pickup's departure and its paired delivery's
//! arrival must not exceed a bound, read from the single itself or inherited
//! from its multi parent.  Inserting a pickup re-estimates the arrival of its
//! already-placed delivery by chaining travel and service through every
//! intervening activity; inserting a delivery takes the already-fixed
//! departure of its placed pickup and estimates the candidate's own arrival.
//! Equality with the bound passes; only strictly exceeding it rejects.

use vstd::prelude::*;

use crate::common::Duration;
use crate::common::GenericError;
use crate::common::Timestamp;
use crate::common::MAX_TIME;
use crate::context::ActivityContext;
use crate::context::MoveContext;
use crate::context::RouteContext;
use crate::feature::ConstraintViolation;
use crate::feature::Feature;
use crate::feature::FeatureConstraint;
use crate::feature::ViolationCode;
use crate::lifo_ordering::spec_single_is_delivery;
use crate::lifo_ordering::spec_single_is_pickup;
use crate::model::spec_wf_activity;
use crate::model::spec_wf_tour;
use crate::model::Activity;
use crate::model::Job;
use crate::model::Multi;
use crate::model::Single;
use crate::transport::TransportCosts;

verus! {

/// The bound that applies to a single: its own, or its multi parent's.
pub open spec fn spec_max_ride_for(s: Single) -> Option<Duration> {
    match s.dimens@.job_max_ride_duration {
        Some(d) => Some(d),
        None => match s.spec_owner_view() {
            Some((_, parent)) => parent.job_max_ride_duration,
            None => None,
        },
    }
}

/// Whether two singles belong to the same multi job.
pub open spec fn spec_same_job(a: Single, b: Single) -> bool {
    match (a.spec_owner_view(), b.spec_owner_view()) {
        (Some((ia, _)), Some((ib, _))) => ia == ib,
        _ => false,
    }
}

/// Whether a ride from `departure` to `arrival` strictly exceeds `bound`.
pub open spec fn spec_ride_exceeds(departure: int, arrival: int, bound: int) -> bool {
    arrival - departure > bound
}

/// The estimated arrival at `target` when inserted after `prev`.
pub open spec fn spec_arrival(t: TransportCosts, prev: Activity, target: Activity) -> int {
    prev.schedule.departure + t.spec_duration(
        prev.place.location as int,
        target.place.location as int,
    )
}

/// The estimated departure from `target` when inserted after `prev`: the
/// arrival, waited out to the place's earliest time, plus its service.
pub open spec fn spec_departure(t: TransportCosts, prev: Activity, target: Activity) -> int {
    let arrival = spec_arrival(t, prev, target);
    (if arrival > target.place.time.start {
        arrival
    } else {
        target.place.time.start as int
    }) + target.place.duration
}

/// The arrival at `tour[j]`, chaining travel and service from a departure of
/// `dep` at location `loc` through the activities `i .. j` of the tour.
pub open spec fn spec_chain_arrival(
    t: TransportCosts,
    tour: Seq<Activity>,
    dep: int,
    loc: int,
    i: int,
    j: int,
) -> int
    decreases j - i,
{
    let arrival = dep + t.spec_duration(loc, tour[i].place.location as int);
    if i >= j {
        arrival
    } else {
        spec_chain_arrival(
            t,
            tour,
            (if arrival > tour[i].place.time.start {
                arrival
            } else {
                tour[i].place.time.start as int
            }) + tour[i].place.duration,
            tour[i].place.location as int,
            i + 1,
            j,
        )
    }
}

/// Whether `activity` is the delivery of the same multi job as `pickup`.
pub open spec fn spec_matching_delivery(activity: Activity, pickup: Single) -> bool {
    match activity.job {
        Some(d) => spec_same_job(pickup, d) && spec_single_is_delivery(d.dimens@),
        None => false,
    }
}

/// Whether `activity` is the pickup of the same multi job as `delivery`.
pub open spec fn spec_matching_pickup(activity: Activity, delivery: Single) -> bool {
    match activity.job {
        Some(p) => spec_same_job(delivery, p) && spec_single_is_pickup(p.dimens@),
        None => false,
    }
}

/// The first position in `i ..= upto` holding the matching pickup of
/// `delivery`, or `-1` if none does.
pub open spec fn find_first_pickup_from(
    tour: Seq<Activity>,
    i: int,
    upto: int,
    delivery: Single,
) -> int
    decreases upto + 1 - i,
{
    if i > upto || i >= tour.len() || i < 0 {
        -1
    } else if spec_matching_pickup(tour[i], delivery) {
        i
    } else {
        find_first_pickup_from(tour, i + 1, upto, delivery)
    }
}

/// The hard constraint bounding the ride duration of pickup/delivery pairs.
#[derive(Debug)]
pub struct MaxRideDurationConstraint {
    pub code: ViolationCode,
    pub transport: TransportCosts,
}

/// The inputs an activity-level ride-duration check is defined on: bounded
/// times throughout, and a leg index within the tour.
pub open spec fn spec_ride_req(route_ctx: RouteContext, activity_ctx: ActivityContext<'_>) -> bool {
    &&& spec_wf_tour(route_ctx.route.tour.activities@)
    &&& spec_wf_activity(*activity_ctx.prev)
    &&& spec_wf_activity(*activity_ctx.target)
    &&& activity_ctx.index <= route_ctx.route.tour.activities@.len()
}

impl MaxRideDurationConstraint {
    /// Whether a visit is the pickup of a pickup/delivery pair.
    pub fn is_pickup(&self, single: &Single) -> (r: bool)
        ensures
            r == spec_single_is_pickup(single.dimens@),
    {
        match single.dimens.get_job_demand() {
            Some(d) => d.pickup.1.is_not_empty(),
            None => false,
        }
    }

    /// Whether a visit is the delivery of a pickup/delivery pair.
    pub fn is_delivery(&self, single: &Single) -> (r: bool)
        ensures
            r == spec_single_is_delivery(single.dimens@),
    {
        match single.dimens.get_job_demand() {
            Some(d) => d.delivery.1.is_not_empty(),
            None => false,
        }
    }

    /// Whether two singles belong to the same multi job.
    pub fn is_same_job(&self, single1: &Single, single2: &Single) -> (r: bool)
        ensures
            r == spec_same_job(*single1, *single2),
    {
        match (Multi::roots(single1), Multi::roots(single2)) {
            (Some(multi1), Some(multi2)) => multi1.id == multi2.id,
            _ => false,
        }
    }

    /// The ride-duration bound that applies to a single, if any: the single's
    /// own, or the one inherited from its multi parent.
    pub fn get_max_ride_duration_for_single(&self, single: &Single) -> (r: Option<Duration>)
        ensures
            r == spec_max_ride_for(*single),
    {
        if let Some(duration) = single.dimens.get_job_max_ride_duration() {
            return Some(*duration);
        }
        match Multi::roots(single) {
            Some(multi) => match multi.dimens.get_job_max_ride_duration() {
                Some(duration) => Some(*duration),
                None => None,
            },
            None => None,
        }
    }

    /// Estimates the arrival at the target activity.
    pub fn estimate_arrival_time(
        &self,
        route_ctx: &RouteContext,
        activity_ctx: &ActivityContext<'_>,
    ) -> (r: Timestamp)
        requires
            activity_ctx.prev.schedule.departure <= MAX_TIME,
        ensures
            r == spec_arrival(self.transport, *activity_ctx.prev, *activity_ctx.target),
            r <= 2 * MAX_TIME,
    {
        let prev = activity_ctx.prev;
        let target = activity_ctx.target;
        let travel_duration = self.transport.duration(prev.place.location, target.place.location);
        prev.schedule.departure + travel_duration
    }

    /// Estimates the departure from the target activity after insertion:
    /// arrival, waited out to the place's earliest time, plus its service.
    pub fn estimate_departure_time(
        &self,
        route_ctx: &RouteContext,
        activity_ctx: &ActivityContext<'_>,
    ) -> (r: Timestamp)
        requires
            activity_ctx.prev.schedule.departure <= MAX_TIME,
            spec_wf_activity(*activity_ctx.target),
        ensures
            r == spec_departure(self.transport, *activity_ctx.prev, *activity_ctx.target),
            r <= 3 * MAX_TIME,
    {
        let arrival = self.estimate_arrival_time(route_ctx, activity_ctx);
        let target = activity_ctx.target;
        let waited = if arrival > target.place.time.start {
            arrival
        } else {
            target.place.time.start
        };
        waited + target.place.duration
    }

    /// Estimates the arrival at the tour activity at `target_idx`, walking
    /// from the insertion point and chaining travel and service through every
    /// intervening activity.
    #[verifier::loop_isolation(false)]
    pub fn estimate_arrival_at_activity_after_insertion(
        &self,
        route_ctx: &RouteContext,
        activity_ctx: &ActivityContext<'_>,
        target_idx: usize,
    ) -> (r: Timestamp)
        requires
            spec_ride_req(*route_ctx, *activity_ctx),
            activity_ctx.index <= target_idx < route_ctx.route.tour.activities@.len(),
        ensures
            r == spec_chain_arrival(
                self.transport,
                route_ctx.route.tour.activities@,
                spec_departure(self.transport, *activity_ctx.prev, *activity_ctx.target),
                activity_ctx.target.place.location as int,
                activity_ctx.index as int,
                target_idx as int,
            ),
    {
        let tour = &route_ctx.route().tour;
        let ghost tourv = tour.activities@;
        let index = activity_ctx.index;

        let mut current_departure = self.estimate_departure_time(route_ctx, activity_ctx);
        let mut current_location = activity_ctx.target.place.location;
        let ghost dep0 = current_departure as int;
        let ghost loc0 = current_location as int;

        let mut idx: usize = index;
        while idx < target_idx
            invariant
                index <= idx <= target_idx,
                current_departure <= 3 * MAX_TIME + 2 * MAX_TIME * (idx - index),
                spec_chain_arrival(self.transport, tourv, dep0, loc0, index as int, target_idx as int)
                    == spec_chain_arrival(
                    self.transport,
                    tourv,
                    current_departure as int,
                    current_location as int,
                    idx as int,
                    target_idx as int,
                ),
            decreases target_idx - idx,
        {
            let activity = match tour.get(idx) {
                Some(a) => a,
                None => {
                    proof {
                        assert(false);
                    }
                    return current_departure;
                },
            };
            let travel_duration = self.transport.duration(current_location, activity.place.location);
            let arrival = current_departure + travel_duration;
            let waited = if arrival > activity.place.time.start {
                arrival
            } else {
                activity.place.time.start
            };
            current_departure = waited + activity.place.duration;
            current_location = activity.place.location;
            idx = idx + 1;
        }

        let activity = match tour.get(target_idx) {
            Some(a) => a,
            None => {
                proof {
                    assert(false);
                }
                return current_departure;
            },
        };
        let travel_duration = self.transport.duration(current_location, activity.place.location);
        current_departure + travel_duration
    }

    /// Checks whether inserting this pickup would push any of its already
    /// placed deliveries past the ride-duration bound.
    #[verifier::loop_isolation(false)]
    pub fn check_pickup_insertion(
        &self,
        route_ctx: &RouteContext,
        activity_ctx: &ActivityContext<'_>,
        pickup_single: &Single,
        max_ride_duration: Duration,
    ) -> (r: Option<ConstraintViolation>)
        requires
            spec_ride_req(*route_ctx, *activity_ctx),
        ensures
            (r is Some <==> exists|j: int|
                activity_ctx.index <= j < route_ctx.route.tour.activities@.len()
                    && spec_matching_delivery(
                    #[trigger] route_ctx.route.tour.activities@[j],
                    *pickup_single,
                ) && spec_ride_exceeds(
                    spec_departure(self.transport, *activity_ctx.prev, *activity_ctx.target),
                    spec_chain_arrival(
                        self.transport,
                        route_ctx.route.tour.activities@,
                        spec_departure(self.transport, *activity_ctx.prev, *activity_ctx.target),
                        activity_ctx.target.place.location as int,
                        activity_ctx.index as int,
                        j,
                    ),
                    max_ride_duration as int,
                )),
            (r matches Some(v) ==> v == (ConstraintViolation { code: self.code, stopped: false })),
    {
        let tour = &route_ctx.route().tour;
        let ghost tourv = tour.activities@;
        let ghost dep0 = spec_departure(self.transport, *activity_ctx.prev, *activity_ctx.target);

        let pickup_departure = self.estimate_departure_time(route_ctx, activity_ctx);
        let total = tour.total();
        let mut idx: usize = activity_ctx.index;
        while idx < total
            invariant
                activity_ctx.index <= idx <= total,
                forall|j: int|
                    activity_ctx.index <= j < idx && spec_matching_delivery(
                        #[trigger] tourv[j],
                        *pickup_single,
                    ) ==> !spec_ride_exceeds(
                        dep0,
                        spec_chain_arrival(
                            self.transport,
                            tourv,
                            dep0,
                            activity_ctx.target.place.location as int,
                            activity_ctx.index as int,
                            j,
                        ),
                        max_ride_duration as int,
                    ),
            decreases total - idx,
        {
            let activity = match tour.get(idx) {
                Some(a) => a,
                None => {
                    proof {
                        assert(false);
                    }
                    return None;
                },
            };
            if let Some(delivery_single) = &activity.job {
                if self.is_same_job(pickup_single, delivery_single) && self.is_delivery(
                    delivery_single,
                ) {
                    let delivery_arrival = self.estimate_arrival_at_activity_after_insertion(
                        route_ctx,
                        activity_ctx,
                        idx,
                    );
                    if delivery_arrival > pickup_departure && delivery_arrival - pickup_departure
                        > max_ride_duration {
                        return Some(ConstraintViolation { code: self.code, stopped: false });
                    }
                }
            }
            idx = idx + 1;
        }
        None
    }

    /// Checks whether inserting this delivery would exceed the ride-duration
    /// bound counted from its already placed pickup's departure.
    #[verifier::loop_isolation(false)]
    pub fn check_delivery_insertion(
        &self,
        route_ctx: &RouteContext,
        activity_ctx: &ActivityContext<'_>,
        delivery_single: &Single,
        max_ride_duration: Duration,
    ) -> (r: Option<ConstraintViolation>)
        requires
            spec_ride_req(*route_ctx, *activity_ctx),
        ensures
            r == {
                let f = find_first_pickup_from(
                    route_ctx.route.tour.activities@,
                    0,
                    activity_ctx.index as int,
                    *delivery_single,
                );
                if f >= 0 && spec_ride_exceeds(
                    route_ctx.route.tour.activities@[f].schedule.departure as int,
                    spec_arrival(self.transport, *activity_ctx.prev, *activity_ctx.target),
                    max_ride_duration as int,
                ) {
                    Some(ConstraintViolation { code: self.code, stopped: false })
                } else {
                    None
                }
            },
    {
        let tour = &route_ctx.route().tour;
        let ghost tourv = tour.activities@;
        let index = activity_ctx.index;

        let mut idx: usize = 0;
        while idx <= index
            invariant
                idx <= index + 1,
                find_first_pickup_from(tourv, 0, index as int, *delivery_single)
                    == find_first_pickup_from(tourv, idx as int, index as int, *delivery_single),
            decreases index + 1 - idx,
        {
            let activity = match tour.get(idx) {
                Some(a) => a,
                None => {
                    proof {
                        assert(find_first_pickup_from(
                            tourv,
                            idx as int,
                            index as int,
                            *delivery_single,
                        ) == -1);
                    }
                    return None;
                },
            };
            if let Some(pickup_single) = &activity.job {
                if self.is_same_job(delivery_single, pickup_single) && self.is_pickup(
                    pickup_single,
                ) {
                    proof {
                        assert(find_first_pickup_from(
                            tourv,
                            idx as int,
                            index as int,
                            *delivery_single,
                        ) == idx);
                    }
                    let pickup_departure = activity.schedule.departure;
                    let delivery_arrival = self.estimate_arrival_time(route_ctx, activity_ctx);
                    if delivery_arrival > pickup_departure && delivery_arrival - pickup_departure
                        > max_ride_duration {
                        return Some(ConstraintViolation { code: self.code, stopped: false });
                    }
                    return None;
                }
            }
            idx = idx + 1;
        }
        None
    }

    /// What the activity-level ride-duration check returns.
    pub open spec fn spec_check_ride_duration(
        &self,
        route_ctx: RouteContext,
        activity_ctx: ActivityContext<'_>,
    ) -> Option<ConstraintViolation> {
        match activity_ctx.target.job {
            None => None,
            Some(single) => match spec_max_ride_for(single) {
                None => None,
                Some(bound) => if spec_single_is_pickup(single.dimens@) {
                    if exists|j: int|
                        activity_ctx.index <= j < route_ctx.route.tour.activities@.len()
                            && spec_matching_delivery(
                            #[trigger] route_ctx.route.tour.activities@[j],
                            single,
                        ) && spec_ride_exceeds(
                            spec_departure(self.transport, *activity_ctx.prev, *activity_ctx.target),
                            spec_chain_arrival(
                                self.transport,
                                route_ctx.route.tour.activities@,
                                spec_departure(
                                    self.transport,
                                    *activity_ctx.prev,
                                    *activity_ctx.target,
                                ),
                                activity_ctx.target.place.location as int,
                                activity_ctx.index as int,
                                j,
                            ),
                            bound as int,
                        ) {
                        Some(ConstraintViolation { code: self.code, stopped: false })
                    } else {
                        None
                    }
                } else if spec_single_is_delivery(single.dimens@) {
                    let f = find_first_pickup_from(
                        route_ctx.route.tour.activities@,
                        0,
                        activity_ctx.index as int,
                        single,
                    );
                    if f >= 0 && spec_ride_exceeds(
                        route_ctx.route.tour.activities@[f].schedule.departure as int,
                        spec_arrival(self.transport, *activity_ctx.prev, *activity_ctx.target),
                        bound as int,
                    ) {
                        Some(ConstraintViolation { code: self.code, stopped: false })
                    } else {
                        None
                    }
                } else {
                    None
                },
            },
        }
    }

    /// Dispatches the activity-level check: pickups look forward to their
    /// placed deliveries, deliveries look back to their placed pickup.
    pub fn check_ride_duration(
        &self,
        route_ctx: &RouteContext,
        activity_ctx: &ActivityContext<'_>,
    ) -> (r: Option<ConstraintViolation>)
        requires
            spec_ride_req(*route_ctx, *activity_ctx),
        ensures
            r == self.spec_check_ride_duration(*route_ctx, *activity_ctx),
    {
        let target = activity_ctx.target;
        let single = match &target.job {
            Some(s) => s,
            None => {
                return None;
            },
        };
        let max_ride_duration = match self.get_max_ride_duration_for_single(single) {
            Some(d) => d,
            None => {
                return None;
            },
        };
        if self.is_pickup(single) {
            self.check_pickup_insertion(route_ctx, activity_ctx, single, max_ride_duration)
        } else if self.is_delivery(single) {
            self.check_delivery_insertion(route_ctx, activity_ctx, single, max_ride_duration)
        } else {
            None
        }
    }
}

impl FeatureConstraint for MaxRideDurationConstraint {
    open spec fn spec_evaluate_req(&self, move_ctx: &MoveContext<'_>) -> bool {
        move_ctx matches MoveContext::Activity { route_ctx, activity_ctx, .. } ==> spec_ride_req(
            **route_ctx,
            **activity_ctx,
        )
    }

    open spec fn spec_evaluate(&self, move_ctx: &MoveContext<'_>) -> Option<ConstraintViolation> {
        match move_ctx {
            MoveContext::Route { .. } => None,
            MoveContext::Activity { route_ctx, activity_ctx, .. } => self.spec_check_ride_duration(
                **route_ctx,
                **activity_ctx,
            ),
        }
    }

    /// Judges an activity-level move by the ride-duration check; route-level
    /// moves are accepted.  A violation rejects this position only.
    fn evaluate(&self, move_ctx: &MoveContext<'_>) -> (r: Option<ConstraintViolation>) {
        match move_ctx {
            MoveContext::Activity { route_ctx, activity_ctx, .. } => self.check_ride_duration(
                route_ctx,
                activity_ctx,
            ),
            MoveContext::Route { .. } => None,
        }
    }

    open spec fn spec_merge(&self, source: Job, candidate: Job) -> Result<Job, ViolationCode> {
        if source.spec_dimens()@.job_max_ride_duration is Some {
            Err(self.code)
        } else {
            Ok(source)
        }
    }

    /// Refuses to merge jobs that carry a ride-duration bound: the bound
    /// cannot be shown to survive a merge, so it is conservatively rejected.
    fn merge(&self, source: Job, candidate: Job) -> (r: Result<Job, ViolationCode>) {
        let bounded = source.dimens().get_job_max_ride_duration().is_some();
        if bounded {
            Err(self.code)
        } else {
            Ok(source)
        }
    }
}

/// Creates the maximum ride duration feature as a hard constraint;
/// construction never fails for these inputs.
pub fn create_max_ride_duration_feature(
    name: &str,
    code: ViolationCode,
    transport: TransportCosts,
) -> (r: Result<Feature<MaxRideDurationConstraint, (), ()>, GenericError>)
    ensures
        (r matches Ok(f) ==> {
            &&& f.name@ == name@
            &&& f.constraint == Some(MaxRideDurationConstraint { code, transport })
            &&& f.objective is None
            &&& f.state is None
        }),
        r is Ok,
{
    Ok(
        Feature {
            name: String::from_str(name),
            constraint: Some(MaxRideDurationConstraint { code, transport }),
            objective: None,
            state: None,
        },
    )
}

/// A multi's shared ride-duration bound is retrievable identically from
/// every child single through the parent lookup, and stays so after the
/// multi is wrapped in a [`Job`] value.
pub proof fn lemma_multi_shared_ride_duration(m: Multi, i: int)
    requires
        m.spec_bound(),
        0 <= i < m.jobs@.len(),
        m.jobs@[i].dimens@.job_max_ride_duration is None,
    ensures
        spec_max_ride_for(m.jobs@[i]) == m.dimens@.job_max_ride_duration,
        spec_max_ride_for(m.jobs@[i]) == Job::Multi(m).spec_dimens()@.job_max_ride_duration,
{
}

/// The ride-duration check is exact at the boundary: a ride equal to the
/// bound passes, and one unit over it fails.
pub proof fn lemma_ride_boundary(departure: int, bound: int)
    ensures
        !spec_ride_exceeds(departure, departure + bound, bound),
        spec_ride_exceeds(departure, departure + bound + 1, bound),
{
}

} // verus!
