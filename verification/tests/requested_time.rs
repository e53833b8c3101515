use vrp_core::create_requested_time_feature;
use vrp_core::Activity;
use vrp_core::ActivityContext;
use vrp_core::Actor;
use vrp_core::Dimensions;
use vrp_core::Driver;
use vrp_core::FeatureObjective;
use vrp_core::InsertionContext;
use vrp_core::MoveContext;
use vrp_core::Place;
use vrp_core::RequestedTimePenalty;
use vrp_core::RequestedTimes;
use vrp_core::Route;
use vrp_core::RouteContext;
use vrp_core::Schedule;
use vrp_core::Single;
use vrp_core::SolutionContext;
use vrp_core::SolutionState;
use vrp_core::TimeWindow;
use vrp_core::Tour;
use vrp_core::TransportCosts;
use vrp_core::Vehicle;
use vrp_core::COST_SCALE;

#[test]
fn can_calculate_early_penalty() {
    let penalty = RequestedTimePenalty::new(1000, 2000);

    // Arriving 30 minutes (1800 seconds) early.
    let arrival = 1000;
    let requested = 2800; // 1800 seconds later

    // Expected: 1800 seconds at one unit per minute = 30 units.
    let result = penalty.calculate_penalty(arrival, requested);
    assert_eq!(result, 30 * COST_SCALE, "Expected 30 units, got {}", result);
}

#[test]
fn can_calculate_late_penalty() {
    let penalty = RequestedTimePenalty::new(1000, 2000);

    // Arriving 30 minutes (1800 seconds) late.
    let arrival = 2800;
    let requested = 1000; // 1800 seconds earlier

    // Expected: 1800 seconds at two units per minute = 60 units.
    let result = penalty.calculate_penalty(arrival, requested);
    assert_eq!(result, 60 * COST_SCALE, "Expected 60 units, got {}", result);
}

#[test]
fn can_calculate_zero_penalty_for_on_time() {
    let penalty = RequestedTimePenalty::new(1000, 2000);

    let arrival = 1000;
    let requested = 1000;

    let result = penalty.calculate_penalty(arrival, requested);
    assert_eq!(result, 0, "Expected 0 units, got {}", result);
}

#[test]
fn can_use_default_penalty() {
    let penalty = RequestedTimePenalty::default();

    // Arriving 60 minutes (3600 seconds) late.
    let arrival = 4600;
    let requested = 1000;

    // Expected: 3600 seconds at the default one unit per minute = 60 units.
    let result = penalty.calculate_penalty(arrival, requested);
    assert_eq!(result, 60 * COST_SCALE, "Expected 60 units, got {}", result);
}

fn identity_transport(size: usize) -> TransportCosts {
    let mut matrix = Vec::new();
    for from in 0..size {
        let mut row = Vec::new();
        for to in 0..size {
            row.push(if to > from { (to - from) as u64 } else { (from - to) as u64 });
        }
        matrix.push(row);
    }
    TransportCosts::new(matrix).unwrap()
}

fn activity_with_requested_time(location: usize, arrival: u64, requested: u64) -> Activity {
    let mut times = RequestedTimes::new();
    times.insert(0, requested);
    let mut dimens = Dimensions::default();
    dimens.set_job_requested_times(times);
    Activity {
        place: Place { idx: 0, location, duration: 0, time: TimeWindow::new(0, 100_000) },
        schedule: Schedule::new(arrival, arrival),
        job: Some(Single::new(Vec::new(), dimens)),
    }
}

#[test]
fn requested_times_store_is_retrievable_per_place() {
    let mut times = RequestedTimes::new();
    times.insert(0, 500);
    times.insert(2, 900);

    assert_eq!(times.get(0), Some(500));
    assert_eq!(times.get(2), Some(900));
    assert_eq!(times.get(1), None);
}

#[test]
fn estimate_uses_actual_arrival_not_schedule() {
    // Previous activity departs at 940 from location 0; travel to location 60
    // takes 60 seconds, so the candidate would actually arrive at 1000 —
    // exactly the requested time — although its recorded schedule says 0.
    let feature = create_requested_time_feature(
        "requested_time",
        RequestedTimePenalty::new(1000, 2000),
        identity_transport(61),
    )
    .unwrap();
    let objective = feature.objective.unwrap();

    let prev = Activity {
        place: Place { idx: 0, location: 0, duration: 0, time: TimeWindow::new(0, 100_000) },
        schedule: Schedule::new(940, 940),
        job: None,
    };
    let target = activity_with_requested_time(60, 0, 1000);

    let solution_ctx = SolutionContext {
        routes: Vec::new(),
        unassigned: Vec::new(),
        state: SolutionState::default(),
    };
    let route_ctx = RouteContext::new(Route {
        actor: Actor {
            vehicle: Vehicle { dimens: Dimensions::default() },
            driver: Driver { dimens: Dimensions::default() },
        },
        tour: Tour::new(),
    });
    let activity_ctx = ActivityContext { index: 0, prev: &prev, target: &target, next: None };

    let estimate = objective.estimate(&MoveContext::Activity {
        solution_ctx: &solution_ctx,
        route_ctx: &route_ctx,
        activity_ctx: &activity_ctx,
    });

    assert_eq!(estimate, 0);
}

#[test]
fn estimate_charges_late_arrival_at_late_rate() {
    // Travel makes the candidate 60 seconds late: one minute at two units.
    let feature = create_requested_time_feature(
        "requested_time",
        RequestedTimePenalty::new(1000, 2000),
        identity_transport(61),
    )
    .unwrap();
    let objective = feature.objective.unwrap();

    let prev = Activity {
        place: Place { idx: 0, location: 0, duration: 0, time: TimeWindow::new(0, 100_000) },
        schedule: Schedule::new(1000, 1000),
        job: None,
    };
    let target = activity_with_requested_time(60, 0, 1000);

    let solution_ctx = SolutionContext {
        routes: Vec::new(),
        unassigned: Vec::new(),
        state: SolutionState::default(),
    };
    let route_ctx = RouteContext::new(Route {
        actor: Actor {
            vehicle: Vehicle { dimens: Dimensions::default() },
            driver: Driver { dimens: Dimensions::default() },
        },
        tour: Tour::new(),
    });
    let activity_ctx = ActivityContext { index: 0, prev: &prev, target: &target, next: None };

    let estimate = objective.estimate(&MoveContext::Activity {
        solution_ctx: &solution_ctx,
        route_ctx: &route_ctx,
        activity_ctx: &activity_ctx,
    });

    assert_eq!(estimate, 2 * COST_SCALE);
}

#[test]
fn fitness_sums_committed_penalties() {
    // Two activities: one 1800 seconds early (30 units at rate one), one with
    // no requested time (free).
    let feature = create_requested_time_feature(
        "requested_time",
        RequestedTimePenalty::new(1000, 2000),
        identity_transport(61),
    )
    .unwrap();
    let objective = feature.objective.unwrap();

    let mut tour = Tour::new();
    tour.activities.push(activity_with_requested_time(10, 1000, 2800));
    tour.activities.push(Activity {
        place: Place { idx: 0, location: 20, duration: 0, time: TimeWindow::new(0, 100_000) },
        schedule: Schedule::new(0, 0),
        job: Some(Single::new(Vec::new(), Dimensions::default())),
    });

    let route_ctx = RouteContext::new(Route {
        actor: Actor {
            vehicle: Vehicle { dimens: Dimensions::default() },
            driver: Driver { dimens: Dimensions::default() },
        },
        tour,
    });
    let insertion_ctx = InsertionContext {
        solution: SolutionContext {
            routes: vec![route_ctx],
            unassigned: Vec::new(),
            state: SolutionState::default(),
        },
    };

    let fitness = objective.fitness(&insertion_ctx);

    assert_eq!(fitness, 30 * COST_SCALE);
}
