use vrp_core::create_max_ride_duration_feature;
use vrp_core::Activity;
use vrp_core::ActivityContext;
use vrp_core::Actor;
use vrp_core::Demand;
use vrp_core::Dimensions;
use vrp_core::Driver;
use vrp_core::FeatureConstraint;
use vrp_core::Job;
use vrp_core::MaxRideDurationConstraint;
use vrp_core::MoveContext;
use vrp_core::Multi;
use vrp_core::Place;
use vrp_core::Route;
use vrp_core::RouteContext;
use vrp_core::Schedule;
use vrp_core::Single;
use vrp_core::SolutionContext;
use vrp_core::SolutionState;
use vrp_core::TimeWindow;
use vrp_core::Tour;
use vrp_core::TransportCosts;
use vrp_core::Vehicle;
use vrp_core::ViolationCode;

const MAX_RIDE_DURATION_CODE: ViolationCode = ViolationCode(1200);

/// A transport whose travel duration is the location distance scaled by a
/// constant factor.
fn scaled_transport(scale: u64) -> TransportCosts {
    let size: usize = 21;
    let mut matrix = Vec::new();
    for from in 0..size {
        let mut row = Vec::new();
        for to in 0..size {
            let distance = if to > from { (to - from) as u64 } else { (from - to) as u64 };
            row.push(distance * scale);
        }
        matrix.push(row);
    }
    TransportCosts::new(matrix).unwrap()
}

fn single_with_demand(demand: Demand) -> Single {
    let mut dimens = Dimensions::default();
    dimens.set_job_demand(demand);
    Single::new(Vec::new(), dimens)
}

#[test]
fn can_create_max_ride_duration_feature() {
    let transport = scaled_transport(1);
    let result = create_max_ride_duration_feature("test", MAX_RIDE_DURATION_CODE, transport);
    assert!(result.is_ok());
}

#[test]
fn test_max_ride_duration_dimension_on_multi() {
    // A pickup single and a delivery single.
    let pickup = single_with_demand(Demand::pudo_pickup(1));
    let delivery = single_with_demand(Demand::pudo_delivery(1));

    // A multi job carrying a shared maximum ride duration.
    let mut dimens = Dimensions::default();
    dimens.set_job_max_ride_duration(600); // ten minutes

    let multi = Multi::new_shared(1, vec![pickup, delivery], dimens);

    // The shared bound is readable on the multi itself.
    assert_eq!(multi.dimens.get_job_max_ride_duration(), Some(&600));

    // And resolvable from each bound child through the parent lookup.
    let pickup_single = &multi.jobs[0];
    let delivery_single = &multi.jobs[1];
    assert_eq!(
        Multi::roots(pickup_single).unwrap().dimens.get_job_max_ride_duration(),
        Some(&600)
    );
    assert_eq!(
        Multi::roots(delivery_single).unwrap().dimens.get_job_max_ride_duration(),
        Some(&600)
    );
}

#[test]
fn ride_duration_test_test_is_pickup_detection() {
    let constraint =
        MaxRideDurationConstraint { code: MAX_RIDE_DURATION_CODE, transport: scaled_transport(1) };

    let pickup = single_with_demand(Demand::pudo_pickup(1));

    assert!(constraint.is_pickup(&pickup));
    assert!(!constraint.is_delivery(&pickup));
}

#[test]
fn ride_duration_test_test_is_delivery_detection() {
    let constraint =
        MaxRideDurationConstraint { code: MAX_RIDE_DURATION_CODE, transport: scaled_transport(1) };

    let delivery = single_with_demand(Demand::pudo_delivery(1));

    assert!(!constraint.is_pickup(&delivery));
    assert!(constraint.is_delivery(&delivery));
}

#[test]
fn test_is_same_job_detection() {
    let constraint =
        MaxRideDurationConstraint { code: MAX_RIDE_DURATION_CODE, transport: scaled_transport(1) };

    let pickup = single_with_demand(Demand::pudo_pickup(1));
    let delivery = single_with_demand(Demand::pudo_delivery(1));

    let multi = Multi::new_shared(1, vec![pickup, delivery], Dimensions::default());

    let pickup_single = &multi.jobs[0];
    let delivery_single = &multi.jobs[1];

    assert!(constraint.is_same_job(pickup_single, delivery_single));
    assert!(constraint.is_same_job(delivery_single, pickup_single));

    let different = Single::new(Vec::new(), Dimensions::default());
    assert!(!constraint.is_same_job(pickup_single, &different));
}

/// A pickup activity at `location`, departing at `departure`.
fn create_pickup_activity(location: usize, departure: u64, single: Single) -> Activity {
    Activity {
        place: Place { idx: 0, location, duration: 60, time: TimeWindow::new(0, 1000) },
        schedule: Schedule { arrival: departure - 60, departure },
        job: Some(single),
    }
}

/// A delivery activity at `location` whose schedule is not yet committed.
fn create_delivery_activity(location: usize, single: Single) -> Activity {
    Activity {
        place: Place { idx: 0, location, duration: 60, time: TimeWindow::new(0, 1000) },
        schedule: Schedule { arrival: 0, departure: 0 },
        job: Some(single),
    }
}

/// A multi with a pickup at location 10 and a delivery at location 20,
/// optionally carrying a maximum ride duration.
fn create_pudo_multi_job(max_ride_duration: Option<u64>) -> Multi {
    let mut pickup_dimens = Dimensions::default();
    pickup_dimens.set_job_demand(Demand::pudo_pickup(1));
    let pickup = Single::new(
        vec![vrp_core::JobPlace { location: Some(10), duration: 0, times: Vec::new() }],
        pickup_dimens,
    );

    let mut delivery_dimens = Dimensions::default();
    delivery_dimens.set_job_demand(Demand::pudo_delivery(1));
    let delivery = Single::new(
        vec![vrp_core::JobPlace { location: Some(20), duration: 0, times: Vec::new() }],
        delivery_dimens,
    );

    let mut dimens = Dimensions::default();
    if let Some(duration) = max_ride_duration {
        dimens.set_job_max_ride_duration(duration);
    }

    Multi::new_shared(1, vec![pickup, delivery], dimens)
}

fn structural_stop(location: usize) -> Activity {
    Activity {
        place: Place { idx: 0, location, duration: 0, time: TimeWindow::new(0, 1000) },
        schedule: Schedule::new(0, 0),
        job: None,
    }
}

/// A route [start, pickup, end] with the pickup already committed.
fn route_with_pickup(pickup: Activity) -> RouteContext {
    let mut tour = Tour::new();
    tour.activities.push(structural_stop(0));
    tour.activities.push(pickup);
    tour.activities.push(structural_stop(0));
    RouteContext::new(Route {
        actor: Actor {
            vehicle: Vehicle { dimens: Dimensions::default() },
            driver: Driver { dimens: Dimensions::default() },
        },
        tour,
    })
}

fn empty_solution() -> SolutionContext {
    SolutionContext { routes: Vec::new(), unassigned: Vec::new(), state: SolutionState::default() }
}

/// Evaluates inserting `delivery_activity` right after the committed pickup.
fn evaluate_delivery_after_pickup(
    scale: u64,
    multi: &Multi,
    delivery_activity: &Activity,
) -> Option<vrp_core::ConstraintViolation> {
    let transport = scaled_transport(scale);
    let feature =
        create_max_ride_duration_feature("test", MAX_RIDE_DURATION_CODE, transport).unwrap();

    let pickup_single = multi.jobs[0].clone();
    let route_ctx = route_with_pickup(create_pickup_activity(10, 100, pickup_single));

    // Tour: [start(0), pickup(1), end(2)]; insert at leg 1, between the
    // pickup and the end.
    let activity_ctx = ActivityContext {
        index: 1,
        prev: route_ctx.route().tour.get(1).unwrap(),
        target: delivery_activity,
        next: route_ctx.route().tour.get(2),
    };

    let solution_ctx = empty_solution();
    let move_ctx = MoveContext::activity(&solution_ctx, &route_ctx, &activity_ctx);

    feature.constraint.unwrap().evaluate(&move_ctx)
}

#[test]
fn test_delivery_insertion_violates_max_ride_duration() {
    // 100 seconds per distance unit: the ten units from location 10 to 20
    // take 1000 seconds, well over the 500 second bound.
    let multi = create_pudo_multi_job(Some(500));
    let delivery_activity = create_delivery_activity(20, multi.jobs[1].clone());

    let result = evaluate_delivery_after_pickup(100, &multi, &delivery_activity);

    assert!(result.is_some(), "Expected constraint violation for ride duration exceeding limit");
    assert_eq!(result.unwrap().code, MAX_RIDE_DURATION_CODE);
}

#[test]
fn test_delivery_insertion_within_max_ride_duration() {
    // 10 seconds per distance unit: 100 seconds of travel, within the 500
    // second bound.
    let multi = create_pudo_multi_job(Some(500));
    let delivery_activity = create_delivery_activity(20, multi.jobs[1].clone());

    let result = evaluate_delivery_after_pickup(10, &multi, &delivery_activity);

    assert!(result.is_none(), "Expected no constraint violation when ride duration is within limit");
}

#[test]
fn test_no_constraint_check_without_max_ride_duration() {
    // No bound set anywhere: 100 seconds per unit travels far, but nothing
    // is checked.
    let multi = create_pudo_multi_job(None);
    let delivery_activity = create_delivery_activity(20, multi.jobs[1].clone());

    let result = evaluate_delivery_after_pickup(100, &multi, &delivery_activity);

    assert!(result.is_none(), "Expected no constraint check when max ride duration is not set");
}

#[test]
fn test_delivery_insertion_at_exact_limit() {
    // 44 seconds per unit: pickup departs at 100, delivery arrives at
    // 100 + 440 = 540, a ride of exactly the 440 second bound.
    let multi = create_pudo_multi_job(Some(440));
    let delivery_activity = create_delivery_activity(20, multi.jobs[1].clone());

    let result = evaluate_delivery_after_pickup(44, &multi, &delivery_activity);

    assert!(result.is_none(), "Expected no violation when ride duration is exactly at limit");
}

#[test]
fn test_delivery_insertion_just_over_limit() {
    // 45 seconds per unit: a ride of 450 seconds against a 440 second bound.
    let multi = create_pudo_multi_job(Some(440));
    let delivery_activity = create_delivery_activity(20, multi.jobs[1].clone());

    let result = evaluate_delivery_after_pickup(45, &multi, &delivery_activity);

    assert!(result.is_some(), "Expected violation when ride duration exceeds limit");
}

#[test]
fn pickup_insertion_checks_downstream_delivery() {
    // The delivery is already committed at tour position 1; inserting its
    // pickup before it re-estimates the delivery arrival through the chain.
    // Travel 0 -> 10 -> 20 at 45 seconds per unit: the pickup departs at
    // 450 + 60 = 510 (service 60), the delivery arrives 450 later at 960, a
    // ride of 450 against a 440 bound.
    let multi = create_pudo_multi_job(Some(440));
    let transport = scaled_transport(45);
    let feature =
        create_max_ride_duration_feature("test", MAX_RIDE_DURATION_CODE, transport).unwrap();

    let delivery_single = multi.jobs[1].clone();
    let mut tour = Tour::new();
    tour.activities.push(structural_stop(0));
    tour.activities.push(create_delivery_activity(20, delivery_single));
    tour.activities.push(structural_stop(0));
    let route_ctx = RouteContext::new(Route {
        actor: Actor {
            vehicle: Vehicle { dimens: Dimensions::default() },
            driver: Driver { dimens: Dimensions::default() },
        },
        tour,
    });

    let pickup_activity = Activity {
        place: Place { idx: 0, location: 10, duration: 60, time: TimeWindow::new(0, 1000) },
        schedule: Schedule::new(0, 0),
        job: Some(multi.jobs[0].clone()),
    };

    let activity_ctx = ActivityContext {
        index: 1,
        prev: route_ctx.route().tour.get(0).unwrap(),
        target: &pickup_activity,
        next: route_ctx.route().tour.get(1),
    };

    let solution_ctx = empty_solution();
    let move_ctx = MoveContext::activity(&solution_ctx, &route_ctx, &activity_ctx);

    let result = feature.constraint.unwrap().evaluate(&move_ctx);
    assert!(result.is_some());
    let violation = result.unwrap();
    assert_eq!(violation.code, MAX_RIDE_DURATION_CODE);
    assert!(!violation.stopped);
}

#[test]
fn merge_is_vetoed_for_bounded_jobs() {
    let constraint =
        MaxRideDurationConstraint { code: MAX_RIDE_DURATION_CODE, transport: scaled_transport(1) };

    let mut bounded_dimens = Dimensions::default();
    bounded_dimens.set_job_max_ride_duration(600);
    let bounded = Job::Single(Single::new(Vec::new(), bounded_dimens));
    let other = Job::Single(Single::new(Vec::new(), Dimensions::default()));

    let refused = constraint.merge(bounded, other);
    assert_eq!(refused.err(), Some(MAX_RIDE_DURATION_CODE));

    let plain = Job::Single(Single::new(Vec::new(), Dimensions::default()));
    let candidate = Job::Single(Single::new(Vec::new(), Dimensions::default()));
    assert!(constraint.merge(plain, candidate).is_ok());
}
