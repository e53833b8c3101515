//! Constraint-and-objective evaluation core for a vehicle routing solver.
//!
//! The crate models jobs, tours and routes, a pluggable feature framework
//! (hard constraints, soft objectives and incremental state hooks), and four
//! concrete features: stack-based pickup/delivery ordering, maximum ride
//! duration, vehicle preference matching, and requested-time deviation.

pub mod capacity;
pub mod common;
pub mod context;
pub mod dimens;
pub mod feature;
pub mod lifo_ordering;
pub mod model;
pub mod preferences;
pub mod requested_time;
pub mod ride_duration;
pub mod transport;

pub use capacity::CapacityDimensionMapping;
pub use common::Cost;
pub use common::Duration;
pub use common::GenericError;
pub use common::Location;
pub use common::Schedule;
pub use common::TagSet;
pub use common::TimeWindow;
pub use common::Timestamp;
pub use common::COST_SCALE;
pub use common::MAX_ACTIVITIES;
pub use common::MAX_ATTR_LIST;
pub use common::MAX_TIME;
pub use context::ActivityContext;
pub use context::InsertionContext;
pub use context::MoveContext;
pub use context::RouteContext;
pub use context::SolutionContext;
pub use context::SolutionState;
pub use dimens::Dimensions;
pub use feature::ConstraintViolation;
pub use feature::Feature;
pub use feature::FeatureConstraint;
pub use feature::FeatureObjective;
pub use feature::FeatureState;
pub use feature::ViolationCode;
pub use lifo_ordering::create_lifo_ordering_feature;
pub use lifo_ordering::LifoGroupId;
pub use lifo_ordering::LifoOrderingConstraint;
pub use model::Activity;
pub use model::Actor;
pub use model::Demand;
pub use model::Driver;
pub use model::Job;
pub use model::JobPlace;
pub use model::Multi;
pub use model::MultiRef;
pub use model::Place;
pub use model::Route;
pub use model::Single;
pub use model::SingleDimLoad;
pub use model::Tour;
pub use model::Vehicle;
pub use preferences::calculate_job_penalty;
pub use preferences::calculate_route_penalty;
pub use preferences::calculate_solution_fitness;
pub use preferences::create_preferences_feature;
pub use preferences::JobPreferences;
pub use preferences::PreferencePenalty;
pub use preferences::PreferencesObjective;
pub use preferences::PreferencesState;
pub use requested_time::create_requested_time_feature;
pub use requested_time::RequestedTimeObjective;
pub use requested_time::RequestedTimePenalty;
pub use requested_time::RequestedTimes;
pub use ride_duration::create_max_ride_duration_feature;
pub use ride_duration::MaxRideDurationConstraint;
pub use transport::TransportCosts;
