//! A stack-ordering constraint for pickup/delivery pairs (hard constraint).
//!
//! On vehicles with limited load-access geometry, items must be unloaded in
//! the reverse order they were loaded, independently per category tag.  Each
//! pickup/delivery pair in a category shares a group identifier; a vehicle
//! names the tags it enforces.  Walking a tour keeps, per enforced tag, a
//! stack of open pickups: a pickup pushes its group, a delivery is valid only
//! when its group matches the top of its tag's stack, which it pops, and any
//! mismatch is a violation of this position only.  Activities without an
//! enforced tag never touch any stack, and a vehicle with no enforced tags
//! never violates.
//!
//! The open pickups are modelled as one flat list of `(tag, group)` pairs in
//! pickup order: the top of a tag's stack is the last open pickup carrying
//! that tag, so the per-tag stacks and the flat list decide alike.

use vstd::prelude::*;

use crate::common::GenericError;
use crate::common::TagSet;
use crate::context::ActivityContext;
use crate::context::MoveContext;
use crate::context::RouteContext;
use crate::dimens::DimensionsView;
use crate::feature::ConstraintViolation;
use crate::feature::Feature;
use crate::feature::FeatureConstraint;
use crate::feature::ViolationCode;
use crate::model::spec_demand_is_delivery;
use crate::model::spec_demand_is_pickup;
use crate::model::Activity;
use crate::model::Job;
use crate::model::Single;

verus! {

/// A unique identifier shared by a pickup/delivery pair whose unloading must
/// follow stack order within its tag.
#[derive(Clone, Copy, Debug, PartialEq, Eq, Hash, Structural)]
pub struct LifoGroupId(pub usize);

/// Whether an attribute store marks its visit as a pickup.
pub open spec fn spec_single_is_pickup(d: DimensionsView) -> bool {
    match d.job_demand {
        Some(dem) => spec_demand_is_pickup(dem),
        None => false,
    }
}

/// Whether an attribute store marks its visit as a delivery.
pub open spec fn spec_single_is_delivery(d: DimensionsView) -> bool {
    match d.job_demand {
        Some(dem) => spec_demand_is_delivery(dem),
        None => false,
    }
}

/// The index of the last open pickup carrying `tag`, or `-1` if none is open.
pub open spec fn find_last_tag(state: Seq<(Seq<char>, LifoGroupId)>, tag: Seq<char>) -> int
    decreases state.len(),
{
    if state.len() == 0 {
        -1
    } else if state.last().0 == tag {
        state.len() - 1
    } else {
        find_last_tag(state.drop_last(), tag)
    }
}

/// What `find_last_tag` finds: a matching index after which no entry carries
/// the tag, or `-1` when no entry carries it at all.
pub proof fn lemma_find_last_tag_props(state: Seq<(Seq<char>, LifoGroupId)>, tag: Seq<char>)
    ensures
        -1 <= find_last_tag(state, tag) < state.len(),
        find_last_tag(state, tag) >= 0 ==> state[find_last_tag(state, tag)].0 == tag,
        forall|k: int| find_last_tag(state, tag) < k < state.len() ==> state[k].0 != tag,
    decreases state.len(),
{
    if state.len() > 0 && state.last().0 != tag {
        lemma_find_last_tag_props(state.drop_last(), tag);
        assert forall|k: int| find_last_tag(state, tag) < k < state.len() implies state[k].0
            != tag by {
            if k < state.len() - 1 {
                assert(state.drop_last()[k] == state[k]);
            } else {
                assert(state[k] == state.last());
            }
        }
    }
}

/// How one activity transforms the open pickups, or `None` on a violation:
/// a pickup with an enforced tag and a group pushes, a delivery pops the last
/// open pickup of its tag when the groups agree, everything else is inert.
pub open spec fn spec_lifo_step(
    state: Seq<(Seq<char>, LifoGroupId)>,
    activity: Activity,
    enforced: Seq<Seq<char>>,
) -> Option<Seq<(Seq<char>, LifoGroupId)>> {
    match activity.job {
        None => Some(state),
        Some(single) => spec_lifo_step_dimens(state, single.dimens@, enforced),
    }
}

/// The step of [`spec_lifo_step`], on the visit's attribute store.
pub open spec fn spec_lifo_step_dimens(
    state: Seq<(Seq<char>, LifoGroupId)>,
    d: DimensionsView,
    enforced: Seq<Seq<char>>,
) -> Option<Seq<(Seq<char>, LifoGroupId)>> {
    match d.lifo_tag {
        None => Some(state),
        Some(tag) => if !enforced.contains(tag) {
            Some(state)
        } else {
            match d.lifo_group {
                None => Some(state),
                Some(gid) => if spec_single_is_pickup(d) {
                    Some(state.push((tag, gid)))
                } else if spec_single_is_delivery(d) {
                    let i = find_last_tag(state, tag);
                    if i >= 0 && state[i].1 == gid {
                        Some(state.remove(i))
                    } else {
                        None
                    }
                } else {
                    Some(state)
                },
            }
        },
    }
}

/// Runs the stack simulation over a sequence of activities, starting from a
/// given open-pickups state; `None` as soon as any step violates.
pub open spec fn spec_lifo_run(
    state: Seq<(Seq<char>, LifoGroupId)>,
    activities: Seq<Activity>,
    enforced: Seq<Seq<char>>,
) -> Option<Seq<(Seq<char>, LifoGroupId)>>
    decreases activities.len(),
{
    if activities.len() == 0 {
        Some(state)
    } else {
        match spec_lifo_step(state, activities[0], enforced) {
            None => None,
            Some(next) => spec_lifo_run(next, activities.drop_first(), enforced),
        }
    }
}

/// The tour with `target` inserted at position `index`.
pub open spec fn spec_inserted(tour: Seq<Activity>, index: int, target: Activity) -> Seq<Activity> {
    tour.subrange(0, index) + seq![target] + tour.subrange(index, tour.len() as int)
}

/// Whether inserting `target` at `index` violates stack order anywhere in the
/// resulting tour, for the given enforced tags.
pub open spec fn spec_lifo_violation(
    tour: Seq<Activity>,
    index: int,
    target: Activity,
    enforced: Seq<Seq<char>>,
) -> bool {
    spec_lifo_run(Seq::empty(), spec_inserted(tour, index, target), enforced) is None
}

/// The view of the executable open-pickups list.
pub open spec fn stacks_view(s: Seq<(String, LifoGroupId)>) -> Seq<(Seq<char>, LifoGroupId)> {
    s.map_values(|p: (String, LifoGroupId)| (p.0@, p.1))
}

/// The hard constraint enforcing stack order per enforced tag.
#[derive(Debug)]
pub struct LifoOrderingConstraint {
    pub code: ViolationCode,
}

impl LifoOrderingConstraint {
    /// Whether a visit is the pickup of a pickup/delivery pair.
    pub fn is_pickup(&self, single: &Single) -> (r: bool)
        ensures
            r == spec_single_is_pickup(single.dimens@),
    {
        match single.dimens.get_job_demand() {
            Some(d) => d.pickup.1.is_not_empty(),
            None => false,
        }
    }

    /// Whether a visit is the delivery of a pickup/delivery pair.
    pub fn is_delivery(&self, single: &Single) -> (r: bool)
        ensures
            r == spec_single_is_delivery(single.dimens@),
    {
        match single.dimens.get_job_demand() {
            Some(d) => d.delivery.1.is_not_empty(),
            None => false,
        }
    }

    /// Feeds one activity to the stack simulation, updating the open-pickups
    /// list, or reports that the activity violates stack order.
    #[verifier::loop_isolation(false)]
    fn process_activity(
        &self,
        activity: &Activity,
        stacks: &mut Vec<(String, LifoGroupId)>,
        vehicle_lifo_tags: &TagSet,
    ) -> (r: Result<(), ()>)
        ensures
            (match spec_lifo_step(stacks_view(old(stacks)@), *activity, vehicle_lifo_tags@) {
                Some(st) => r is Ok && stacks_view(final(stacks)@) == st,
                None => r is Err,
            }),
    {
        let single = match &activity.job {
            Some(s) => s,
            None => {
                return Ok(());
            },
        };
        let lifo_tag = match single.dimens.get_lifo_tag() {
            Some(t) => t,
            None => {
                return Ok(());
            },
        };
        if !vehicle_lifo_tags.contains(lifo_tag) {
            return Ok(());
        }
        let lifo_group_id = match single.dimens.get_lifo_group() {
            Some(g) => *g,
            None => {
                return Ok(());
            },
        };
        let ghost sv = stacks_view(stacks@);
        if self.is_pickup(single) {
            let entry = (lifo_tag.clone(), lifo_group_id);
            stacks.push(entry);
            proof {
                assert(stacks_view(stacks@) =~= sv.push((lifo_tag@, lifo_group_id)));
            }
            Ok(())
        } else if self.is_delivery(single) {
            let mut j: usize = stacks.len();
            proof {
                assert(sv.subrange(0, sv.len() as int) =~= sv);
            }
            while j > 0
                invariant
                    j <= stacks@.len(),
                    sv == stacks_view(stacks@),
                    sv.len() == stacks@.len(),
                    forall|k: int| 0 <= k < sv.len() ==> sv[k] == (#[trigger] stacks@[k].0@, stacks@[k].1),
                    find_last_tag(sv, lifo_tag@) == find_last_tag(
                        sv.subrange(0, j as int),
                        lifo_tag@,
                    ),
                decreases j,
            {
                let entry_matches = {
                    let entry = &stacks[j - 1];
                    entry.0 == *lifo_tag
                };
                proof {
                    let prefix = sv.subrange(0, j as int);
                    assert(prefix.last() == sv[j as int - 1]);
                    assert(prefix.drop_last() =~= sv.subrange(0, j as int - 1));
                }
                if entry_matches {
                    proof {
                        let prefix = sv.subrange(0, j as int);
                        assert(prefix.last().0 == lifo_tag@);
                        assert(find_last_tag(prefix, lifo_tag@) == j - 1);
                        assert(find_last_tag(sv, lifo_tag@) == j - 1);
                        assert(sv[j as int - 1].1 == stacks@[j as int - 1].1);
                    }
                    let group_matches = {
                        let entry = &stacks[j - 1];
                        entry.1 == lifo_group_id
                    };
                    if group_matches {
                        let ghost before = stacks@;
                        stacks.remove(j - 1);
                        proof {
                            assert(stacks@ == before.remove(j as int - 1));
                            sv.remove_ensures(j as int - 1);
                            before.remove_ensures(j as int - 1);
                            assert(stacks_view(stacks@) =~= sv.remove(j as int - 1));
                            assert(spec_lifo_step(sv, *activity, vehicle_lifo_tags@) == Some(
                                sv.remove(j as int - 1),
                            ));
                        }
                        return Ok(());
                    } else {
                        proof {
                            assert(spec_lifo_step(sv, *activity, vehicle_lifo_tags@) is None);
                        }
                        return Err(());
                    }
                }
                j = j - 1;
            }
            proof {
                assert(sv.subrange(0, 0) =~= Seq::<(Seq<char>, LifoGroupId)>::empty());
                assert(find_last_tag(sv, lifo_tag@) == -1);
            }
            Err(())
        } else {
            Ok(())
        }
    }

    /// Simulates the tour with the target activity inserted at the leg index
    /// and reports whether any position violates stack order.
    #[verifier::loop_isolation(false)]
    pub fn check_lifo_violation(
        &self,
        route_ctx: &RouteContext,
        activity_ctx: &ActivityContext<'_>,
        vehicle_lifo_tags: &TagSet,
    ) -> (r: bool)
        requires
            activity_ctx.index <= route_ctx.route.tour.activities@.len(),
        ensures
            r == spec_lifo_violation(
                route_ctx.route.tour.activities@,
                activity_ctx.index as int,
                *activity_ctx.target,
                vehicle_lifo_tags@,
            ),
    {
        let tour = &route_ctx.route().tour;
        let index = activity_ctx.index;
        let ghost tourv = tour.activities@;
        let ghost ins = spec_inserted(tourv, index as int, *activity_ctx.target);
        let ghost enf = vehicle_lifo_tags@;
        proof {
            assert(ins.len() == tourv.len() + 1);
            assert(forall|k: int| 0 <= k < index ==> ins[k] == tourv[k]);
            assert(ins[index as int] == *activity_ctx.target);
            assert(forall|k: int| index <= k < tourv.len() ==> ins[k + 1] == tourv[k]);
        }

        let mut stacks: Vec<(String, LifoGroupId)> = Vec::new();
        proof {
            assert(stacks_view(stacks@) =~= Seq::<(Seq<char>, LifoGroupId)>::empty());
            assert(ins.subrange(0, ins.len() as int) =~= ins);
        }

        let mut idx: usize = 0;
        while idx < index
            invariant
                idx <= index <= tourv.len(),
                tour == &route_ctx.route.tour,
                tourv == tour.activities@,
                ins == spec_inserted(tourv, index as int, *activity_ctx.target),
                index == activity_ctx.index,
                enf == vehicle_lifo_tags@,
                ins.len() == tourv.len() + 1,
                forall|k: int| 0 <= k < index ==> ins[k] == tourv[k],
                spec_lifo_run(Seq::empty(), ins, enf) == spec_lifo_run(
                    stacks_view(stacks@),
                    ins.subrange(idx as int, ins.len() as int),
                    enf,
                ),
            decreases index - idx,
        {
            let activity = match tour.get(idx) {
                Some(a) => a,
                None => {
                    proof {
                        assert(false);
                    }
                    return true;
                },
            };
            proof {
                let rest = ins.subrange(idx as int, ins.len() as int);
                assert(rest[0] == ins[idx as int]);
                assert(rest.drop_first() =~= ins.subrange(idx as int + 1, ins.len() as int));
            }
            if self.process_activity(activity, &mut stacks, vehicle_lifo_tags).is_err() {
                return true;
            }
            idx = idx + 1;
        }

        proof {
            let rest = ins.subrange(index as int, ins.len() as int);
            assert(rest[0] == ins[index as int]);
            assert(rest.drop_first() =~= ins.subrange(index as int + 1, ins.len() as int));
        }
        if self.process_activity(activity_ctx.target, &mut stacks, vehicle_lifo_tags).is_err() {
            return true;
        }

        let total = tour.total();
        let mut idx2: usize = index;
        while idx2 < total
            invariant
                index <= idx2 <= total,
                total == tourv.len(),
                tour == &route_ctx.route.tour,
                tourv == tour.activities@,
                ins == spec_inserted(tourv, index as int, *activity_ctx.target),
                index == activity_ctx.index,
                enf == vehicle_lifo_tags@,
                ins.len() == tourv.len() + 1,
                forall|k: int| index <= k < tourv.len() ==> ins[k + 1] == tourv[k],
                spec_lifo_run(Seq::empty(), ins, enf) == spec_lifo_run(
                    stacks_view(stacks@),
                    ins.subrange(idx2 as int + 1, ins.len() as int),
                    enf,
                ),
            decreases total - idx2,
        {
            let activity = match tour.get(idx2) {
                Some(a) => a,
                None => {
                    proof {
                        assert(false);
                    }
                    return true;
                },
            };
            proof {
                let rest = ins.subrange(idx2 as int + 1, ins.len() as int);
                assert(rest[0] == ins[idx2 as int + 1]);
                assert(rest.drop_first() =~= ins.subrange(idx2 as int + 2, ins.len() as int));
            }
            if self.process_activity(activity, &mut stacks, vehicle_lifo_tags).is_err() {
                return true;
            }
            idx2 = idx2 + 1;
        }

        proof {
            assert(ins.subrange(total as int + 1, ins.len() as int) =~= Seq::<Activity>::empty());
        }
        false
    }
}

impl FeatureConstraint for LifoOrderingConstraint {
    open spec fn spec_evaluate_req(&self, move_ctx: &MoveContext<'_>) -> bool {
        move_ctx matches MoveContext::Activity { route_ctx, activity_ctx, .. }
            ==> activity_ctx.index <= route_ctx.route.tour.activities@.len()
    }

    open spec fn spec_evaluate(&self, move_ctx: &MoveContext<'_>) -> Option<ConstraintViolation> {
        match move_ctx {
            MoveContext::Route { .. } => None,
            MoveContext::Activity { route_ctx, activity_ctx, .. } => {
                match route_ctx.route.actor.vehicle.dimens@.vehicle_lifo_tags {
                    None => None,
                    Some(tags) => if tags.len() == 0 {
                        None
                    } else if spec_lifo_violation(
                        route_ctx.route.tour.activities@,
                        activity_ctx.index as int,
                        *activity_ctx.target,
                        tags,
                    ) {
                        Some(ConstraintViolation { code: self.code, stopped: false })
                    } else {
                        None
                    },
                }
            },
        }
    }

    /// Judges an activity-level move by simulating the tour with the target
    /// inserted; route-level moves are accepted, as are vehicles that enforce
    /// no tags.  A violation rejects this position only (`stopped` is false).
    fn evaluate(&self, move_ctx: &MoveContext<'_>) -> (r: Option<ConstraintViolation>) {
        match move_ctx {
            MoveContext::Activity { route_ctx, activity_ctx, .. } => {
                let vehicle_lifo_tags = match route_ctx.route(
                ).actor.vehicle.dimens.get_vehicle_lifo_tags() {
                    Some(t) => t,
                    None => {
                        return None;
                    },
                };
                if vehicle_lifo_tags.is_empty() {
                    return None;
                }
                let would_violate = self.check_lifo_violation(
                    route_ctx,
                    activity_ctx,
                    vehicle_lifo_tags,
                );
                if would_violate {
                    Some(ConstraintViolation { code: self.code, stopped: false })
                } else {
                    None
                }
            },
            MoveContext::Route { .. } => None,
        }
    }

    open spec fn spec_merge(&self, source: Job, candidate: Job) -> Result<Job, ViolationCode> {
        if source.spec_dimens()@.lifo_tag is Some {
            Err(self.code)
        } else {
            Ok(source)
        }
    }

    /// Refuses to merge jobs that carry a stack-ordering tag: a merge cannot
    /// be shown to preserve stack order without re-deriving it, so it is
    /// conservatively rejected.
    fn merge(&self, source: Job, candidate: Job) -> (r: Result<Job, ViolationCode>) {
        let tagged = source.dimens().get_lifo_tag().is_some();
        if tagged {
            Err(self.code)
        } else {
            Ok(source)
        }
    }
}

/// Creates the stack-ordering feature as a hard constraint; construction
/// never fails for these inputs.
pub fn create_lifo_ordering_feature(code: ViolationCode) -> (r: Result<
    Feature<LifoOrderingConstraint, (), ()>,
    GenericError,
>)
    ensures
        (r matches Ok(f) ==> {
            &&& f.name@ == "lifo_ordering"@
            &&& f.constraint == Some(LifoOrderingConstraint { code })
            &&& f.objective is None
            &&& f.state is None
        }),
        r is Ok,
{
    Ok(
        Feature {
            name: String::from_str("lifo_ordering"),
            constraint: Some(LifoOrderingConstraint { code }),
            objective: None,
            state: None,
        },
    )
}

/// Picking a group up and delivering it right away never violates stack
/// order and leaves every tag's stack as it was — whatever open pickups of
/// other tags or groups surround the pair.
pub proof fn lemma_lifo_pair_roundtrip(
    state: Seq<(Seq<char>, LifoGroupId)>,
    pickup: Activity,
    delivery: Activity,
    tag: Seq<char>,
    gid: LifoGroupId,
    enforced: Seq<Seq<char>>,
)
    requires
        pickup.job matches Some(p) && p.dimens@.lifo_tag == Some(tag) && p.dimens@.lifo_group
            == Some(gid) && spec_single_is_pickup(p.dimens@),
        delivery.job matches Some(d) && d.dimens@.lifo_tag == Some(tag) && d.dimens@.lifo_group
            == Some(gid) && spec_single_is_delivery(d.dimens@) && !spec_single_is_pickup(d.dimens@),
        enforced.contains(tag),
    ensures
        spec_lifo_step(state, pickup, enforced) == Some(state.push((tag, gid))),
        spec_lifo_step(state.push((tag, gid)), delivery, enforced) == Some(state),
{
    let pushed = state.push((tag, gid));
    assert(pushed.last() == (tag, gid));
    assert(find_last_tag(pushed, tag) == pushed.len() - 1);
    assert(pushed.remove(pushed.len() - 1) =~= state);
}

/// Delivering a group that does not match the last open pickup of its tag —
/// or whose tag has no open pickup at all — always violates stack order.
pub proof fn lemma_lifo_out_of_order(
    state: Seq<(Seq<char>, LifoGroupId)>,
    delivery: Activity,
    tag: Seq<char>,
    gid: LifoGroupId,
    enforced: Seq<Seq<char>>,
)
    requires
        delivery.job matches Some(d) && d.dimens@.lifo_tag == Some(tag) && d.dimens@.lifo_group
            == Some(gid) && spec_single_is_delivery(d.dimens@) && !spec_single_is_pickup(d.dimens@),
        enforced.contains(tag),
        !(find_last_tag(state, tag) >= 0 && state[find_last_tag(state, tag)].1 == gid),
    ensures
        spec_lifo_step(state, delivery, enforced) is None,
{
}

/// Running the simulation over a concatenation first runs the front part;
/// a violation there is final, and otherwise the back part runs from the
/// state the front part reached.
pub proof fn lemma_lifo_run_append(
    state: Seq<(Seq<char>, LifoGroupId)>,
    s1: Seq<Activity>,
    s2: Seq<Activity>,
    enforced: Seq<Seq<char>>,
)
    ensures
        spec_lifo_run(state, s1 + s2, enforced) == match spec_lifo_run(state, s1, enforced) {
            Some(st) => spec_lifo_run(st, s2, enforced),
            None => None,
        },
    decreases s1.len(),
{
    if s1.len() == 0 {
        assert(s1 + s2 =~= s2);
    } else {
        assert((s1 + s2)[0] == s1[0]);
        match spec_lifo_step(state, s1[0], enforced) {
            None => {},
            Some(next) => {
                lemma_lifo_run_append(next, s1.drop_first(), s2, enforced);
                assert(s1.drop_first() + s2 =~= (s1 + s2).drop_first());
            },
        }
    }
}

/// For all tours: a pickup immediately followed by its own delivery never
/// violates stack order and leaves every stack as it was — the tour with the
/// adjacent pair runs exactly like the tour without it, whatever activities
/// of other tags or groups surround the pair.
pub proof fn lemma_lifo_pair_insertion_preserves_run(
    prefix: Seq<Activity>,
    pickup: Activity,
    delivery: Activity,
    suffix: Seq<Activity>,
    tag: Seq<char>,
    gid: LifoGroupId,
    enforced: Seq<Seq<char>>,
)
    requires
        pickup.job matches Some(p) && p.dimens@.lifo_tag == Some(tag) && p.dimens@.lifo_group
            == Some(gid) && spec_single_is_pickup(p.dimens@),
        delivery.job matches Some(d) && d.dimens@.lifo_tag == Some(tag) && d.dimens@.lifo_group
            == Some(gid) && spec_single_is_delivery(d.dimens@) && !spec_single_is_pickup(d.dimens@),
        enforced.contains(tag),
    ensures
        spec_lifo_run(Seq::empty(), prefix + seq![pickup, delivery] + suffix, enforced)
            == spec_lifo_run(Seq::empty(), prefix + suffix, enforced),
{
    let pair = seq![pickup, delivery];
    let start = Seq::<(Seq<char>, LifoGroupId)>::empty();
    assert(prefix + pair + suffix =~= prefix + (pair + suffix));
    lemma_lifo_run_append(start, prefix, pair + suffix, enforced);
    lemma_lifo_run_append(start, prefix, suffix, enforced);
    match spec_lifo_run(start, prefix, enforced) {
        None => {},
        Some(st) => {
            lemma_lifo_pair_roundtrip(st, pickup, delivery, tag, gid, enforced);
            assert((pair + suffix)[0] == pickup);
            assert((pair + suffix).drop_first() =~= seq![delivery] + suffix);
            assert((seq![delivery] + suffix)[0] == delivery);
            assert((seq![delivery] + suffix).drop_first() =~= suffix);
            assert(spec_lifo_run(st, pair + suffix, enforced) == spec_lifo_run(
                st.push((tag, gid)),
                seq![delivery] + suffix,
                enforced,
            ));
            assert(spec_lifo_run(st.push((tag, gid)), seq![delivery] + suffix, enforced)
                == spec_lifo_run(st, suffix, enforced));
        },
    }
}

/// For all tours: delivering a group out of stack order — not matching the
/// last open pickup of its tag after the preceding activities ran — always
/// violates, wherever the delivery stands and whatever follows it.
pub proof fn lemma_lifo_out_of_order_rejects_run(
    prefix: Seq<Activity>,
    delivery: Activity,
    suffix: Seq<Activity>,
    tag: Seq<char>,
    gid: LifoGroupId,
    enforced: Seq<Seq<char>>,
    st: Seq<(Seq<char>, LifoGroupId)>,
)
    requires
        spec_lifo_run(Seq::empty(), prefix, enforced) == Some(st),
        delivery.job matches Some(d) && d.dimens@.lifo_tag == Some(tag) && d.dimens@.lifo_group
            == Some(gid) && spec_single_is_delivery(d.dimens@) && !spec_single_is_pickup(d.dimens@),
        enforced.contains(tag),
        !(find_last_tag(st, tag) >= 0 && st[find_last_tag(st, tag)].1 == gid),
    ensures
        spec_lifo_run(Seq::empty(), prefix + seq![delivery] + suffix, enforced) is None,
{
    let start = Seq::<(Seq<char>, LifoGroupId)>::empty();
    assert(prefix + seq![delivery] + suffix =~= prefix + (seq![delivery] + suffix));
    lemma_lifo_run_append(start, prefix, seq![delivery] + suffix, enforced);
    lemma_lifo_out_of_order(st, delivery, tag, gid, enforced);
    assert((seq![delivery] + suffix)[0] == delivery);
}

/// A vehicle that enforces no tags never sees a violation, whatever the tour
/// holds: every activity is inert for an empty enforced-tag set.
pub proof fn lemma_lifo_empty_enforced(
    state: Seq<(Seq<char>, LifoGroupId)>,
    activities: Seq<Activity>,
)
    ensures
        spec_lifo_run(state, activities, Seq::<Seq<char>>::empty()) == Some(state),
    decreases activities.len(),
{
    if activities.len() > 0 {
        assert(spec_lifo_step(state, activities[0], Seq::<Seq<char>>::empty()) == Some(state));
        lemma_lifo_empty_enforced(state, activities.drop_first());
    }
}

} // verus!
