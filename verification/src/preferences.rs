//! A job/vehicle preferences objective (soft constraint).
//!
//! Jobs may express desired vehicle attributes without making them hard
//! requirements: a missing preferred match, a missing fallback match, and
//! each present avoided attribute add configurable penalties, and the sum is
//! scaled by a per-job weight.

use vstd::prelude::*;

use crate::common::dedup_tags;
use crate::common::Cost;
use crate::common::GenericError;
use crate::common::TagSet;
use crate::common::COST_SCALE;
use crate::common::MAX_ATTR_LIST;
use crate::context::InsertionContext;
use crate::context::MoveContext;
use crate::context::RouteContext;
use crate::context::SolutionContext;
use crate::context::SolutionState;
use crate::feature::Feature;
use crate::feature::FeatureObjective;
use crate::feature::FeatureState;
use crate::model::Job;

verus! {

/// The weight carried by a job with no explicit weight: one, in milli-units.
pub const DEFAULT_PREFERENCE_WEIGHT: u32 = 1000;

/// Whether some tag of `list` is present in `attrs`.
pub open spec fn spec_tags_overlap(list: Seq<Seq<char>>, attrs: Seq<Seq<char>>) -> bool {
    exists|k: int| 0 <= k < list.len() && attrs.contains(list[k])
}

/// How many tags of `list` are present in `attrs`.
pub open spec fn count_present(list: Seq<Seq<char>>, attrs: Seq<Seq<char>>) -> nat
    decreases list.len(),
{
    if list.len() == 0 {
        0
    } else {
        count_present(list.drop_last(), attrs) + if attrs.contains(list.last()) {
            1nat
        } else {
            0nat
        }
    }
}

/// The spec-level content of a [`JobPreferences`] record.
#[verifier::ext_equal]
pub struct JobPreferencesView {
    pub preferred: Option<Seq<Seq<char>>>,
    pub acceptable: Option<Seq<Seq<char>>>,
    pub avoid: Option<Seq<Seq<char>>>,
    pub weight: u32,
}

/// Job preferences for vehicle attributes (soft constraint).
///
/// - `preferred`: penalty applies if none of these is present;
/// - `acceptable`: fallback; a further penalty applies if, in addition, none
///   of these is present either;
/// - `avoid`: a penalty applies for each of these that is present;
/// - `weight`: multiplier on the summed penalty, in milli-units.
#[derive(Debug)]
pub struct JobPreferences {
    /// Preferred attributes; penalty if none is present.
    pub preferred: Option<TagSet>,
    /// Fallback attributes; additional penalty if no preferred and no
    /// acceptable attribute is present.
    pub acceptable: Option<TagSet>,
    /// Attributes to avoid; penalty for each one present.
    pub avoid: Option<TagSet>,
    /// Penalty multiplier in milli-units; `DEFAULT_PREFERENCE_WEIGHT` is one.
    pub weight: u32,
}

impl View for JobPreferences {
    type V = JobPreferencesView;

    open spec fn view(&self) -> JobPreferencesView {
        JobPreferencesView {
            preferred: match self.preferred {
                Some(t) => Some(t@),
                None => None,
            },
            acceptable: match self.acceptable {
                Some(t) => Some(t@),
                None => None,
            },
            avoid: match self.avoid {
                Some(t) => Some(t@),
                None => None,
            },
            weight: self.weight,
        }
    }
}

/// The normalisation applied to each attribute list handed to
/// [`JobPreferences::new`]: an absent or empty list is dropped, a non-empty
/// one is deduplicated.
pub open spec fn spec_normalize_tags(attrs: Option<Seq<Seq<char>>>) -> Option<Seq<Seq<char>>> {
    match attrs {
        None => None,
        Some(s) => if s.len() == 0 {
            None
        } else {
            Some(dedup_tags(s))
        },
    }
}

/// The view of an optional list of attribute strings.
pub open spec fn spec_attr_list(attrs: Option<Vec<String>>) -> Option<Seq<Seq<char>>> {
    match attrs {
        None => None,
        Some(v) => Some(v@.map_values(|s: String| s@)),
    }
}

impl JobPreferences {
    /// Creates a preference record; empty lists count as absent, and a missing
    /// weight defaults to one.
    pub fn new(
        preferred: Option<Vec<String>>,
        acceptable: Option<Vec<String>>,
        avoid: Option<Vec<String>>,
        weight: Option<u32>,
    ) -> (r: JobPreferences)
        requires
            (preferred matches Some(v) ==> v@.len() <= MAX_ATTR_LIST),
            (acceptable matches Some(v) ==> v@.len() <= MAX_ATTR_LIST),
            (avoid matches Some(v) ==> v@.len() <= MAX_ATTR_LIST),
        ensures
            r@.preferred == spec_normalize_tags(spec_attr_list(preferred)),
            r@.acceptable == spec_normalize_tags(spec_attr_list(acceptable)),
            r@.avoid == spec_normalize_tags(spec_attr_list(avoid)),
            r@.weight == match weight {
                Some(w) => w,
                None => DEFAULT_PREFERENCE_WEIGHT,
            },
    {
        let w: u32 = match weight {
            Some(w) => w,
            None => DEFAULT_PREFERENCE_WEIGHT,
        };
        JobPreferences {
            preferred: Self::normalize(preferred),
            acceptable: Self::normalize(acceptable),
            avoid: Self::normalize(avoid),
            weight: w,
        }
    }

    fn normalize(attrs: Option<Vec<String>>) -> (r: Option<TagSet>)
        requires
            (attrs matches Some(v) ==> v@.len() <= MAX_ATTR_LIST),
        ensures
            (match r {
                Some(t) => Some(t@),
                None => None,
            }) == spec_normalize_tags(spec_attr_list(attrs)),
    {
        match attrs {
            None => None,
            Some(v) => if v.len() == 0 {
                None
            } else {
                Some(TagSet::from_vec(v))
            },
        }
    }

    /// Whether any preferred attribute is present on the vehicle.
    pub fn has_preferred_match(&self, vehicle_attrs: Option<&TagSet>) -> (r: bool)
        ensures
            r == match (self@.preferred, vehicle_attrs) {
                (Some(p), Some(a)) => spec_tags_overlap(p, a@),
                _ => false,
            },
    {
        match (&self.preferred, vehicle_attrs) {
            (Some(preferred), Some(attrs)) => Self::any_present(preferred, attrs),
            _ => false,
        }
    }

    /// Whether any acceptable attribute is present on the vehicle.
    pub fn has_acceptable_match(&self, vehicle_attrs: Option<&TagSet>) -> (r: bool)
        ensures
            r == match (self@.acceptable, vehicle_attrs) {
                (Some(p), Some(a)) => spec_tags_overlap(p, a@),
                _ => false,
            },
    {
        match (&self.acceptable, vehicle_attrs) {
            (Some(acceptable), Some(attrs)) => Self::any_present(acceptable, attrs),
            _ => false,
        }
    }

    /// How many avoided attributes are present on the vehicle.
    pub fn count_avoided(&self, vehicle_attrs: Option<&TagSet>) -> (r: usize)
        ensures
            r == match (self@.avoid, vehicle_attrs) {
                (Some(p), Some(a)) => count_present(p, a@),
                _ => 0nat,
            },
            r <= MAX_ATTR_LIST,
    {
        match (&self.avoid, vehicle_attrs) {
            (Some(avoid), Some(attrs)) => Self::count_in(avoid, attrs),
            _ => 0,
        }
    }

    fn any_present(list: &TagSet, attrs: &TagSet) -> (r: bool)
        ensures
            r == spec_tags_overlap(list@, attrs@),
    {
        let n = list.len();
        let mut i: usize = 0;
        while i < n
            invariant
                n == list@.len(),
                i <= n,
                forall|k: int| 0 <= k < i ==> !attrs@.contains(list@[k]),
            decreases n - i,
        {
            if attrs.contains(list.get(i)) {
                return true;
            }
            i = i + 1;
        }
        false
    }

    fn count_in(list: &TagSet, attrs: &TagSet) -> (r: usize)
        ensures
            r == count_present(list@, attrs@),
            r <= MAX_ATTR_LIST,
    {
        let n = list.len();
        let mut count: usize = 0;
        let mut i: usize = 0;
        proof {
            assert(list@.subrange(0, 0) =~= Seq::<Seq<char>>::empty());
        }
        while i < n
            invariant
                n == list@.len(),
                i <= n,
                count == count_present(list@.subrange(0, i as int), attrs@),
                count <= i,
            decreases n - i,
        {
            proof {
                let prefix = list@.subrange(0, i as int + 1);
                assert(prefix.drop_last() =~= list@.subrange(0, i as int));
                assert(prefix.last() == list@[i as int]);
            }
            if attrs.contains(list.get(i)) {
                count = count + 1;
            }
            i = i + 1;
        }
        proof {
            assert(list@.subrange(0, list@.len() as int) =~= list@);
        }
        count
    }
}

/// Configurable penalties for the preferences objective, in cost milli-units.
/// Rates are 32-bit so that penalty products stay within range.
#[derive(Clone, Copy, Debug, PartialEq, Eq, Structural)]
pub struct PreferencePenalty {
    /// Penalty if none of the preferred attributes is present.
    pub no_preferred_match: u32,
    /// Additional penalty if no preferred and no acceptable attribute is present.
    pub no_acceptable_match: u32,
    /// Penalty per avoided attribute that is present.
    pub per_avoided_present: u32,
}

impl Default for PreferencePenalty {
    /// One hundred units for a missing preferred match, thirty more when the
    /// fallback also misses, and seventy-five per avoided attribute present.
    fn default() -> (r: Self)
        ensures
            r.no_preferred_match == 100_000,
            r.no_acceptable_match == 30_000,
            r.per_avoided_present == 75_000,
    {
        PreferencePenalty {
            no_preferred_match: 100_000,
            no_acceptable_match: 30_000,
            per_avoided_present: 75_000,
        }
    }
}

/// Whether some tag of `list` is present in the optional attribute set.
pub open spec fn spec_overlap_opt(list: Seq<Seq<char>>, attrs: Option<Seq<Seq<char>>>) -> bool {
    match attrs {
        Some(a) => spec_tags_overlap(list, a),
        None => false,
    }
}

/// The unweighted penalty for missing preferred and acceptable matches.
pub open spec fn spec_mismatch_penalty(
    config: PreferencePenalty,
    p: JobPreferencesView,
    attrs: Option<Seq<Seq<char>>>,
) -> int {
    match p.preferred {
        Some(pref) => if !spec_overlap_opt(pref, attrs) {
            config.no_preferred_match + (match p.acceptable {
                Some(acc) => if !spec_overlap_opt(acc, attrs) {
                    config.no_acceptable_match as int
                } else {
                    0
                },
                None => 0,
            })
        } else {
            0
        },
        None => 0,
    }
}

/// The unweighted penalty for avoided attributes that are present.
pub open spec fn spec_avoid_penalty(
    config: PreferencePenalty,
    p: JobPreferencesView,
    attrs: Option<Seq<Seq<char>>>,
) -> int {
    match (p.avoid, attrs) {
        (Some(av), Some(a)) => count_present(av, a) * config.per_avoided_present,
        _ => 0,
    }
}

/// The penalty of one preference record against an optional vehicle
/// attribute set: mismatch and avoidance penalties summed, then scaled by
/// the record's weight.
pub open spec fn spec_pref_penalty(
    config: PreferencePenalty,
    prefs: Option<JobPreferencesView>,
    attrs: Option<Seq<Seq<char>>>,
) -> int {
    match prefs {
        None => 0,
        Some(p) => (spec_mismatch_penalty(config, p, attrs) + spec_avoid_penalty(config, p, attrs))
            * p.weight / (COST_SCALE as int),
    }
}

/// The penalty of assigning `job` to the route of `route_ctx`.
pub open spec fn spec_job_penalty(
    config: PreferencePenalty,
    job: Job,
    route_ctx: RouteContext,
) -> int {
    spec_pref_penalty(
        config,
        job.spec_dimens()@.job_preferences,
        route_ctx.route.actor.vehicle.dimens@.vehicle_attributes,
    )
}

/// The summed penalty of the first `n` jobs of the route.
pub open spec fn spec_route_penalty_upto(
    config: PreferencePenalty,
    route_ctx: RouteContext,
    n: int,
) -> int
    decreases n,
{
    if n <= 0 {
        0
    } else {
        spec_route_penalty_upto(config, route_ctx, n - 1) + spec_job_penalty(
            config,
            route_ctx.route.tour.jobs@[n - 1],
            route_ctx,
        )
    }
}

/// The summed penalty of every job of the route.
pub open spec fn spec_route_penalty(config: PreferencePenalty, route_ctx: RouteContext) -> int {
    spec_route_penalty_upto(config, route_ctx, route_ctx.route.tour.jobs@.len() as int)
}

/// The summed penalty of the first `n` routes of the solution.
pub open spec fn spec_solution_fitness_upto(
    config: PreferencePenalty,
    ctx: SolutionContext,
    n: int,
) -> int
    decreases n,
{
    if n <= 0 {
        0
    } else {
        spec_solution_fitness_upto(config, ctx, n - 1) + spec_route_penalty(
            config,
            ctx.routes@[n - 1],
        )
    }
}

/// The summed penalty over the whole solution.
pub open spec fn spec_solution_fitness(config: PreferencePenalty, ctx: SolutionContext) -> int {
    spec_solution_fitness_upto(config, ctx, ctx.routes@.len() as int)
}

/// A preference penalty is never negative.
pub proof fn lemma_pref_penalty_nonneg(
    config: PreferencePenalty,
    prefs: Option<JobPreferencesView>,
    attrs: Option<Seq<Seq<char>>>,
)
    ensures
        spec_pref_penalty(config, prefs, attrs) >= 0,
{
    match prefs {
        None => {},
        Some(p) => {
            lemma_avoid_penalty_nonneg(config, p, attrs);
            let mismatch = spec_mismatch_penalty(config, p, attrs);
            let avoid = spec_avoid_penalty(config, p, attrs);
            crate::common::lemma_mul_bounds(
                mismatch + avoid,
                p.weight as int,
                mismatch + avoid,
                p.weight as int,
            );
            crate::common::lemma_div_bounds((mismatch + avoid) * p.weight, COST_SCALE as int);
        },
    }
}

/// The avoidance component of the penalty is never negative.
pub proof fn lemma_avoid_penalty_nonneg(
    config: PreferencePenalty,
    p: JobPreferencesView,
    attrs: Option<Seq<Seq<char>>>,
)
    ensures
        spec_avoid_penalty(config, p, attrs) >= 0,
{
    match (p.avoid, attrs) {
        (Some(av), Some(a)) => {
            crate::common::lemma_mul_bounds(
                count_present(av, a) as int,
                config.per_avoided_present as int,
                count_present(av, a) as int,
                config.per_avoided_present as int,
            );
        },
        _ => {},
    }
}

/// Prefix sums of route penalties grow monotonically.
pub proof fn lemma_route_penalty_upto_monotonic(
    config: PreferencePenalty,
    route_ctx: RouteContext,
    i: int,
    n: int,
)
    requires
        0 <= i <= n,
    ensures
        spec_route_penalty_upto(config, route_ctx, i) <= spec_route_penalty_upto(
            config,
            route_ctx,
            n,
        ),
    decreases n - i,
{
    if i < n {
        lemma_route_penalty_upto_monotonic(config, route_ctx, i, n - 1);
        lemma_pref_penalty_nonneg(
            config,
            route_ctx.route.tour.jobs@[n - 1].spec_dimens()@.job_preferences,
            route_ctx.route.actor.vehicle.dimens@.vehicle_attributes,
        );
    }
}

/// A route penalty is never negative.
pub proof fn lemma_route_penalty_nonneg(config: PreferencePenalty, route_ctx: RouteContext)
    ensures
        spec_route_penalty(config, route_ctx) >= 0,
{
    lemma_route_penalty_upto_monotonic(
        config,
        route_ctx,
        0,
        route_ctx.route.tour.jobs@.len() as int,
    );
}

/// Prefix sums of the solution fitness grow monotonically.
pub proof fn lemma_solution_fitness_upto_monotonic(
    config: PreferencePenalty,
    ctx: SolutionContext,
    i: int,
    n: int,
)
    requires
        0 <= i <= n,
    ensures
        spec_solution_fitness_upto(config, ctx, i) <= spec_solution_fitness_upto(config, ctx, n),
    decreases n - i,
{
    if i < n {
        lemma_solution_fitness_upto_monotonic(config, ctx, i, n - 1);
        lemma_route_penalty_nonneg(config, ctx.routes@[n - 1]);
    }
}

/// Calculates the penalty of assigning a job to a route.
pub fn calculate_job_penalty(
    penalty_config: &PreferencePenalty,
    job: &Job,
    route_ctx: &RouteContext,
) -> (r: Cost)
    requires
        spec_job_penalty(*penalty_config, *job, *route_ctx) <= u64::MAX,
    ensures
        r == spec_job_penalty(*penalty_config, *job, *route_ctx),
{
    let preferences = match job.dimens().get_job_preferences() {
        Some(prefs) => prefs,
        None => {
            return 0;
        },
    };
    let vehicle_attrs = route_ctx.route().actor.vehicle.dimens.get_vehicle_attributes();

    let has_preferred = preferences.has_preferred_match(vehicle_attrs);
    let has_acceptable = preferences.has_acceptable_match(vehicle_attrs);

    let mut base: u64 = 0;
    if preferences.preferred.is_some() && !has_preferred {
        base = penalty_config.no_preferred_match as u64;
        if preferences.acceptable.is_some() && !has_acceptable {
            base = base + penalty_config.no_acceptable_match as u64;
        }
    }

    let avoided = preferences.count_avoided(vehicle_attrs);
    proof {
        crate::common::lemma_mul_bounds(
            avoided as int,
            penalty_config.per_avoided_present as int,
            MAX_ATTR_LIST as int,
            u32::MAX as int,
        );
    }
    let with_avoid: u128 = (base as u128) + (avoided as u128) * (
    penalty_config.per_avoided_present as u128);
    proof {
        crate::common::lemma_mul_bounds(
            with_avoid as int,
            preferences.weight as int,
            with_avoid as int,
            u32::MAX as int,
        );
    }
    let weighted: u128 = with_avoid * (preferences.weight as u128) / (COST_SCALE as u128);
    proof {
        let p = preferences@;
        let attrs = route_ctx.route.actor.vehicle.dimens@.vehicle_attributes;
        assert(base == spec_mismatch_penalty(*penalty_config, p, attrs));
        assert((avoided as int) * (penalty_config.per_avoided_present as int) == spec_avoid_penalty(
            *penalty_config,
            p,
            attrs,
        ));
        crate::common::lemma_div_bounds(
            (with_avoid as int) * (preferences.weight as int),
            COST_SCALE as int,
        );
        assert(weighted == spec_pref_penalty(*penalty_config, Some(p), attrs));
    }
    weighted as u64
}

/// Calculates the total penalty of all jobs in a route.
pub fn calculate_route_penalty(penalty_config: &PreferencePenalty, route_ctx: &RouteContext) -> (r:
    Cost)
    requires
        spec_route_penalty(*penalty_config, *route_ctx) <= u64::MAX,
    ensures
        r == spec_route_penalty(*penalty_config, *route_ctx),
{
    let jobs = route_ctx.route().tour.jobs();
    let n = jobs.len();
    let mut total: u64 = 0;
    let mut i: usize = 0;
    while i < n
        invariant
            n == route_ctx.route.tour.jobs@.len(),
            jobs == &route_ctx.route.tour.jobs,
            i <= n,
            total == spec_route_penalty_upto(*penalty_config, *route_ctx, i as int),
            spec_route_penalty(*penalty_config, *route_ctx) <= u64::MAX,
        decreases n - i,
    {
        proof {
            lemma_route_penalty_upto_monotonic(*penalty_config, *route_ctx, i as int + 1, n as int);
            lemma_pref_penalty_nonneg(
                *penalty_config,
                route_ctx.route.tour.jobs@[i as int].spec_dimens()@.job_preferences,
                route_ctx.route.actor.vehicle.dimens@.vehicle_attributes,
            );
        }
        let p = calculate_job_penalty(penalty_config, &jobs[i], route_ctx);
        total = total + p;
        i = i + 1;
    }
    total
}

/// Calculates the total penalty across the entire solution.
pub fn calculate_solution_fitness(
    penalty_config: &PreferencePenalty,
    solution_ctx: &SolutionContext,
) -> (r: Cost)
    requires
        spec_solution_fitness(*penalty_config, *solution_ctx) <= u64::MAX,
    ensures
        r == spec_solution_fitness(*penalty_config, *solution_ctx),
{
    let n = solution_ctx.routes.len();
    let mut total: u64 = 0;
    let mut i: usize = 0;
    while i < n
        invariant
            n == solution_ctx.routes@.len(),
            i <= n,
            total == spec_solution_fitness_upto(*penalty_config, *solution_ctx, i as int),
            spec_solution_fitness(*penalty_config, *solution_ctx) <= u64::MAX,
        decreases n - i,
    {
        proof {
            lemma_solution_fitness_upto_monotonic(
                *penalty_config,
                *solution_ctx,
                i as int + 1,
                n as int,
            );
            lemma_route_penalty_nonneg(*penalty_config, solution_ctx.routes@[i as int]);
            lemma_route_penalty_upto_monotonic(
                *penalty_config,
                solution_ctx.routes@[i as int],
                0,
                solution_ctx.routes@[i as int].route.tour.jobs@.len() as int,
            );
            lemma_solution_fitness_upto_monotonic(*penalty_config, *solution_ctx, 0, i as int);
        }
        let p = calculate_route_penalty(penalty_config, &solution_ctx.routes[i]);
        total = total + p;
        i = i + 1;
    }
    total
}

/// The soft objective of the preferences feature.
#[derive(Debug)]
pub struct PreferencesObjective {
    pub penalty: PreferencePenalty,
}

impl FeatureObjective for PreferencesObjective {
    open spec fn spec_fitness_req(&self, solution: &InsertionContext) -> bool {
        solution.solution.state.spec_preferences_fitness() is None ==> spec_solution_fitness(
            self.penalty,
            solution.solution,
        ) <= u64::MAX
    }

    open spec fn spec_fitness(&self, solution: &InsertionContext) -> Cost {
        match solution.solution.state.spec_preferences_fitness() {
            Some(cached) => cached,
            None => spec_solution_fitness(self.penalty, solution.solution) as Cost,
        }
    }

    /// Prefers the solution-level cache maintained by the state hook and
    /// recomputes the summed penalty only when no cache is present.
    fn fitness(&self, solution: &InsertionContext) -> (r: Cost) {
        match solution.solution.state.get_preferences_fitness() {
            Some(cached) => cached,
            None => calculate_solution_fitness(&self.penalty, &solution.solution),
        }
    }

    open spec fn spec_estimate_req(&self, move_ctx: &MoveContext<'_>) -> bool {
        move_ctx matches MoveContext::Route { route_ctx, job, .. } ==> spec_job_penalty(
            self.penalty,
            **job,
            **route_ctx,
        ) <= u64::MAX
    }

    open spec fn spec_estimate(&self, move_ctx: &MoveContext<'_>) -> Cost {
        match move_ctx {
            MoveContext::Route { route_ctx, job, .. } => spec_job_penalty(
                self.penalty,
                **job,
                **route_ctx,
            ) as Cost,
            MoveContext::Activity { .. } => 0,
        }
    }

    /// Estimates the penalty of a route-level move; the feature works at
    /// route granularity, so activity-level moves contribute nothing.
    fn estimate(&self, move_ctx: &MoveContext<'_>) -> (r: Cost) {
        match move_ctx {
            MoveContext::Route { route_ctx, job, .. } => calculate_job_penalty(
                &self.penalty,
                job,
                route_ctx,
            ),
            MoveContext::Activity { .. } => 0,
        }
    }
}

/// The state hook of the preferences feature: a solution-level cache of the
/// summed penalty, deliberately without per-route caches — the computation is
/// a handful of set lookups per job, so the simpler state wins.
#[derive(Debug)]
pub struct PreferencesState {
    pub penalty: PreferencePenalty,
}

impl FeatureState for PreferencesState {
    open spec fn spec_accept_insertion_req(
        &self,
        solution_ctx: &SolutionContext,
        route_index: usize,
        job: &Job,
    ) -> bool {
        true
    }

    open spec fn spec_accept_insertion(
        &self,
        solution_ctx: SolutionContext,
        route_index: usize,
        job: &Job,
    ) -> SolutionContext {
        solution_ctx
    }

    /// No per-route cache is kept, so a committed insertion changes nothing.
    fn accept_insertion(&self, solution_ctx: &mut SolutionContext, route_index: usize, job: &Job) {
    }

    open spec fn spec_accept_route_state_req(&self, route_ctx: &RouteContext) -> bool {
        true
    }

    open spec fn spec_accept_route_state(&self, route_ctx: RouteContext) -> RouteContext {
        route_ctx
    }

    /// No per-route cache is kept; see `accept_insertion`.
    fn accept_route_state(&self, route_ctx: &mut RouteContext) {
    }

    open spec fn spec_accept_solution_state_req(&self, solution_ctx: &SolutionContext) -> bool {
        spec_solution_fitness(self.penalty, *solution_ctx) <= u64::MAX
    }

    open spec fn spec_accept_solution_state(&self, solution_ctx: SolutionContext) -> SolutionContext {
        SolutionContext {
            state: SolutionState::spec_with_preferences_fitness(
                spec_solution_fitness(self.penalty, solution_ctx) as Cost,
            ),
            ..solution_ctx
        }
    }

    /// Rebuilds the solution-level cache from scratch.
    fn accept_solution_state(&self, solution_ctx: &mut SolutionContext) {
        let total = calculate_solution_fitness(&self.penalty, solution_ctx);
        solution_ctx.state.set_preferences_fitness(total);
    }
}

/// Creates a preferences feature as a soft constraint (objective) with a
/// solution-level cache; construction never fails for these inputs.
pub fn create_preferences_feature(name: &str, penalty: PreferencePenalty) -> (r: Result<
    Feature<(), PreferencesObjective, PreferencesState>,
    GenericError,
>)
    ensures
        (r matches Ok(f) ==> {
            &&& f.name@ == name@
            &&& f.constraint is None
            &&& f.objective == Some(PreferencesObjective { penalty })
            &&& f.state == Some(PreferencesState { penalty })
        }),
        r is Ok,
{
    Ok(
        Feature {
            name: String::from_str(name),
            constraint: None,
            objective: Some(PreferencesObjective { penalty }),
            state: Some(PreferencesState { penalty }),
        },
    )
}

/// The preferences penalty is additive and weight-scaled: the mismatch and
/// avoidance components are summed before the weight is applied, and a job
/// with no preference record incurs nothing.
pub proof fn lemma_pref_penalty_additive(
    config: PreferencePenalty,
    prefs: Option<JobPreferencesView>,
    attrs: Option<Seq<Seq<char>>>,
)
    ensures
        prefs is None ==> spec_pref_penalty(config, prefs, attrs) == 0,
        (prefs matches Some(p) ==> spec_pref_penalty(config, prefs, attrs) == (spec_mismatch_penalty(
            config,
            p,
            attrs,
        ) + spec_avoid_penalty(config, p, attrs)) * p.weight / (COST_SCALE as int)),
{
}

/// Applying the solution-state hook twice without an intervening mutation
/// produces the same cached fitness and the same solution as applying it
/// once: the hook is idempotent.
pub proof fn lemma_accept_solution_state_idempotent(state: PreferencesState, ctx: SolutionContext)
    ensures
        state.spec_accept_solution_state(state.spec_accept_solution_state(ctx))
            == state.spec_accept_solution_state(ctx),
{
    let once = state.spec_accept_solution_state(ctx);
    assert(spec_solution_fitness_upto(state.penalty, once, once.routes@.len() as int)
        == spec_solution_fitness_upto(state.penalty, ctx, ctx.routes@.len() as int)) by {
        lemma_solution_fitness_ignores_state(state.penalty, ctx, once, ctx.routes@.len() as int);
    }
}

/// The summed solution penalty reads only the routes, never the cached state.
proof fn lemma_solution_fitness_ignores_state(
    config: PreferencePenalty,
    a: SolutionContext,
    b: SolutionContext,
    n: int,
)
    requires
        a.routes == b.routes,
    ensures
        spec_solution_fitness_upto(config, a, n) == spec_solution_fitness_upto(config, b, n),
    decreases n,
{
    if n > 0 {
        lemma_solution_fitness_ignores_state(config, a, b, n - 1);
    }
}

impl Clone for JobPreferences {
    fn clone(&self) -> (r: Self)
        ensures
            r@ == self@,
    {
        let r = JobPreferences {
            preferred: match &self.preferred {
                Some(t) => Some(t.clone()),
                None => None,
            },
            acceptable: match &self.acceptable {
                Some(t) => Some(t.clone()),
                None => None,
            },
            avoid: match &self.avoid {
                Some(t) => Some(t.clone()),
                None => None,
            },
            weight: self.weight,
        };
        proof {
            assert(r@ =~= self@);
        }
        r
    }
}

} // verus!
