use vrp_core::calculate_job_penalty;
use vrp_core::calculate_solution_fitness;
use vrp_core::create_preferences_feature;
use vrp_core::Actor;
use vrp_core::Dimensions;
use vrp_core::Driver;
use vrp_core::FeatureObjective;
use vrp_core::FeatureState;
use vrp_core::InsertionContext;
use vrp_core::Job;
use vrp_core::JobPreferences;
use vrp_core::PreferencePenalty;
use vrp_core::Route;
use vrp_core::RouteContext;
use vrp_core::Single;
use vrp_core::SolutionContext;
use vrp_core::SolutionState;
use vrp_core::TagSet;
use vrp_core::Tour;
use vrp_core::Vehicle;
use vrp_core::COST_SCALE;

fn strings(items: Vec<&str>) -> Vec<String> {
    items.iter().map(|s| s.to_string()).collect()
}

fn create_job_with_preferences(
    id: &str,
    preferred: Option<Vec<&str>>,
    acceptable: Option<Vec<&str>>,
    avoid: Option<Vec<&str>>,
) -> Job {
    create_job_with_preferences_and_weight(id, preferred, acceptable, avoid, None)
}

fn create_job_with_preferences_and_weight(
    id: &str,
    preferred: Option<Vec<&str>>,
    acceptable: Option<Vec<&str>>,
    avoid: Option<Vec<&str>>,
    weight: Option<u32>,
) -> Job {
    let mut dimens = Dimensions::default();
    dimens.set_job_id(id.to_string());
    dimens.set_job_preferences(JobPreferences::new(
        preferred.map(strings),
        acceptable.map(strings),
        avoid.map(strings),
        weight,
    ));
    Job::Single(Single::new(Vec::new(), dimens))
}

fn tag_set(attributes: Vec<&str>) -> TagSet {
    let mut set = TagSet::new();
    for attr in attributes {
        set.insert(attr.to_string());
    }
    set
}

fn create_vehicle_with_attributes(attributes: Vec<&str>) -> Vehicle {
    let mut dimens = Dimensions::default();
    dimens.set_vehicle_attributes(tag_set(attributes));
    Vehicle { dimens }
}

fn create_route_ctx_with_attributes(attributes: Vec<&str>) -> RouteContext {
    let vehicle = create_vehicle_with_attributes(attributes);
    RouteContext::new(Route {
        actor: Actor { vehicle, driver: Driver { dimens: Dimensions::default() } },
        tour: Tour::new(),
    })
}

#[test]
fn test_job_preferences_new() {
    let prefs = JobPreferences::new(
        Some(strings(vec!["driver:alice"])),
        Some(strings(vec!["driver:bob"])),
        Some(strings(vec!["shift:night"])),
        None,
    );

    assert!(prefs.preferred.is_some());
    assert!(prefs.acceptable.is_some());
    assert!(prefs.avoid.is_some());
    assert_eq!(prefs.preferred.as_ref().unwrap().len(), 1);
    assert_eq!(prefs.weight as u64, COST_SCALE); // Default weight of one.
}

#[test]
fn test_job_preferences_with_weight() {
    let prefs = JobPreferences::new(Some(strings(vec!["driver:alice"])), None, None, Some(2500));

    assert_eq!(prefs.weight, 2500);
}

#[test]
fn test_job_preferences_empty_lists() {
    let prefs = JobPreferences::new(Some(vec![]), Some(vec![]), Some(vec![]), None);

    assert!(prefs.preferred.is_none());
    assert!(prefs.acceptable.is_none());
    assert!(prefs.avoid.is_none());
}

#[test]
fn test_has_preferred_match() {
    let prefs =
        JobPreferences::new(Some(strings(vec!["driver:alice", "driver:bob"])), None, None, None);

    let attrs_alice = tag_set(vec!["driver:alice"]);
    let attrs_charlie = tag_set(vec!["driver:charlie"]);

    assert!(prefs.has_preferred_match(Some(&attrs_alice)));
    assert!(!prefs.has_preferred_match(Some(&attrs_charlie)));
}

#[test]
fn test_has_acceptable_match() {
    let prefs = JobPreferences::new(None, Some(strings(vec!["driver:bob"])), None, None);

    let attrs_bob = tag_set(vec!["driver:bob"]);
    let attrs_charlie = tag_set(vec!["driver:charlie"]);

    assert!(prefs.has_acceptable_match(Some(&attrs_bob)));
    assert!(!prefs.has_acceptable_match(Some(&attrs_charlie)));
}

#[test]
fn test_count_avoided() {
    let prefs =
        JobPreferences::new(None, None, Some(strings(vec!["shift:night", "vehicle:old"])), None);

    let attrs_night = tag_set(vec!["shift:night"]);
    let attrs_both = tag_set(vec!["shift:night", "vehicle:old"]);
    let attrs_none = tag_set(vec!["shift:day"]);

    assert_eq!(prefs.count_avoided(Some(&attrs_night)), 1);
    assert_eq!(prefs.count_avoided(Some(&attrs_both)), 2);
    assert_eq!(prefs.count_avoided(Some(&attrs_none)), 0);
}

#[test]
fn test_penalty_no_preferences() {
    let job = create_job_with_preferences("job1", None, None, None);
    let route_ctx = create_route_ctx_with_attributes(vec!["driver:alice"]);

    let penalty_config = PreferencePenalty::default();
    let penalty = calculate_job_penalty(&penalty_config, &job, &route_ctx);

    assert_eq!(penalty, 0);
}

#[test]
fn test_penalty_preferred_match() {
    let job = create_job_with_preferences("job1", Some(vec!["driver:alice"]), None, None);
    let route_ctx = create_route_ctx_with_attributes(vec!["driver:alice"]);

    let penalty_config = PreferencePenalty::default();
    let penalty = calculate_job_penalty(&penalty_config, &job, &route_ctx);

    assert_eq!(penalty, 0);
}

#[test]
fn test_penalty_no_preferred_match() {
    let job = create_job_with_preferences("job1", Some(vec!["driver:alice"]), None, None);
    let route_ctx = create_route_ctx_with_attributes(vec!["driver:bob"]);

    let penalty_config = PreferencePenalty::default();
    let penalty = calculate_job_penalty(&penalty_config, &job, &route_ctx);

    assert_eq!(penalty, penalty_config.no_preferred_match as u64);
}

#[test]
fn test_penalty_acceptable_match() {
    let job = create_job_with_preferences(
        "job1",
        Some(vec!["driver:alice"]),
        Some(vec!["driver:bob"]),
        None,
    );
    let route_ctx = create_route_ctx_with_attributes(vec!["driver:bob"]);

    let penalty_config = PreferencePenalty::default();
    let penalty = calculate_job_penalty(&penalty_config, &job, &route_ctx);

    // No preferred match, but an acceptable one: only the preferred penalty.
    assert_eq!(penalty, penalty_config.no_preferred_match as u64);
}

#[test]
fn test_penalty_no_acceptable_match() {
    let job = create_job_with_preferences(
        "job1",
        Some(vec!["driver:alice"]),
        Some(vec!["driver:bob"]),
        None,
    );
    let route_ctx = create_route_ctx_with_attributes(vec!["driver:charlie"]);

    let penalty_config = PreferencePenalty::default();
    let penalty = calculate_job_penalty(&penalty_config, &job, &route_ctx);

    // Neither a preferred nor an acceptable match.
    assert_eq!(
        penalty,
        penalty_config.no_preferred_match as u64 + penalty_config.no_acceptable_match as u64
    );
}

#[test]
fn test_penalty_avoided_present() {
    let job = create_job_with_preferences("job1", None, None, Some(vec!["shift:night"]));
    let route_ctx = create_route_ctx_with_attributes(vec!["driver:alice", "shift:night"]);

    let penalty_config = PreferencePenalty::default();
    let penalty = calculate_job_penalty(&penalty_config, &job, &route_ctx);

    assert_eq!(penalty, penalty_config.per_avoided_present as u64);
}

#[test]
fn test_penalty_multiple_avoided_present() {
    let job =
        create_job_with_preferences("job1", None, None, Some(vec!["shift:night", "vehicle:old"]));
    let route_ctx = create_route_ctx_with_attributes(vec!["shift:night", "vehicle:old"]);

    let penalty_config = PreferencePenalty::default();
    let penalty = calculate_job_penalty(&penalty_config, &job, &route_ctx);

    assert_eq!(penalty, 2 * penalty_config.per_avoided_present as u64);
}

#[test]
fn test_penalty_combined() {
    let job = create_job_with_preferences(
        "job1",
        Some(vec!["driver:alice"]),
        None,
        Some(vec!["shift:night"]),
    );
    // The vehicle is Bob's on a night shift: no preferred match, one avoided
    // attribute present.
    let route_ctx = create_route_ctx_with_attributes(vec!["driver:bob", "shift:night"]);

    let penalty_config = PreferencePenalty::default();
    let penalty = calculate_job_penalty(&penalty_config, &job, &route_ctx);

    assert_eq!(
        penalty,
        penalty_config.no_preferred_match as u64 + penalty_config.per_avoided_present as u64
    );
}

#[test]
fn test_penalty_with_weight_multiplier() {
    let job = create_job_with_preferences_and_weight(
        "job1",
        Some(vec!["driver:alice"]),
        None,
        None,
        Some(2000),
    );
    let route_ctx = create_route_ctx_with_attributes(vec!["driver:bob"]);

    let penalty_config = PreferencePenalty::default();
    let penalty = calculate_job_penalty(&penalty_config, &job, &route_ctx);

    // A weight of two doubles the penalty.
    assert_eq!(penalty, penalty_config.no_preferred_match as u64 * 2);
}

#[test]
fn test_penalty_with_weight_combined() {
    let job = create_job_with_preferences_and_weight(
        "job1",
        Some(vec!["driver:alice"]),
        None,
        Some(vec!["shift:night"]),
        Some(3000),
    );
    let route_ctx = create_route_ctx_with_attributes(vec!["driver:bob", "shift:night"]);

    let penalty_config = PreferencePenalty::default();
    let penalty = calculate_job_penalty(&penalty_config, &job, &route_ctx);

    // A weight of three triples the combined penalty.
    let base_penalty =
        penalty_config.no_preferred_match as u64 + penalty_config.per_avoided_present as u64;
    assert_eq!(penalty, base_penalty * 3);
}

fn solution_with_one_preference_route() -> SolutionContext {
    let job = create_job_with_preferences("job1", Some(vec!["driver:alice"]), None, None);
    let vehicle = create_vehicle_with_attributes(vec!["driver:bob"]);
    let mut tour = Tour::new();
    tour.jobs.push(job);
    let route_ctx = RouteContext::new(Route {
        actor: Actor { vehicle, driver: Driver { dimens: Dimensions::default() } },
        tour,
    });
    SolutionContext {
        routes: vec![route_ctx],
        unassigned: Vec::new(),
        state: SolutionState::default(),
    }
}

#[test]
fn solution_fitness_sums_jobs_over_routes() {
    let penalty_config = PreferencePenalty::default();
    let solution = solution_with_one_preference_route();

    let fitness = calculate_solution_fitness(&penalty_config, &solution);

    assert_eq!(fitness, penalty_config.no_preferred_match as u64);
}

#[test]
fn accept_solution_state_caches_fitness_idempotently() {
    let penalty_config = PreferencePenalty::default();
    let feature = create_preferences_feature("preferences", penalty_config).unwrap();
    let state = feature.state.unwrap();
    let mut solution = solution_with_one_preference_route();

    state.accept_solution_state(&mut solution);
    let first = solution.state.get_preferences_fitness();

    state.accept_solution_state(&mut solution);
    let second = solution.state.get_preferences_fitness();

    assert_eq!(first, Some(penalty_config.no_preferred_match as u64));
    assert_eq!(first, second);
}

#[test]
fn fitness_prefers_cached_value() {
    let penalty_config = PreferencePenalty::default();
    let feature = create_preferences_feature("preferences", penalty_config).unwrap();
    let objective = feature.objective.unwrap();
    let state = feature.state.unwrap();

    let mut solution = solution_with_one_preference_route();
    state.accept_solution_state(&mut solution);

    let insertion_ctx = InsertionContext { solution };
    let fitness = objective.fitness(&insertion_ctx);

    assert_eq!(fitness, penalty_config.no_preferred_match as u64);
}
