//! The job, activity, tour and route data model.
//!
//! Jobs are either a `Single` visit or a `Multi` grouping of singles that
//! must be served together (for example a pickup and its delivery).  A multi
//! owns its singles; each single carries a weak parent record — the parent's
//! identifier and a copy of its shared attribute store — so that attributes
//! set only on the parent are discoverable from any child without an owning
//! back-reference.

use vstd::prelude::*;

use crate::common::Duration;
use crate::common::Location;
use crate::common::Schedule;
use crate::common::TimeWindow;
use crate::common::MAX_ACTIVITIES;
use crate::common::MAX_TIME;
use crate::dimens::Dimensions;
use crate::dimens::DimensionsView;

verus! {

/// A one-dimensional load value.
#[derive(Clone, Copy, Debug, PartialEq, Eq, Structural)]
pub struct SingleDimLoad {
    pub value: i32,
}

impl SingleDimLoad {
    pub fn new(value: i32) -> (r: SingleDimLoad)
        ensures
            r.value == value,
    {
        SingleDimLoad { value }
    }

    pub fn is_not_empty(&self) -> (r: bool)
        ensures
            r == (self.value != 0),
    {
        self.value != 0
    }
}

/// A demand carried by a single visit.  Each side holds a static and a
/// dynamic part; pickup/delivery pairs use the dynamic part.
#[derive(Clone, Copy, Debug)]
pub struct Demand {
    pub pickup: (SingleDimLoad, SingleDimLoad),
    pub delivery: (SingleDimLoad, SingleDimLoad),
}

/// Whether a demand marks its visit as the pickup of a pickup/delivery pair.
pub open spec fn spec_demand_is_pickup(d: Demand) -> bool {
    d.pickup.1.value != 0
}

/// Whether a demand marks its visit as the delivery of a pickup/delivery pair.
pub open spec fn spec_demand_is_delivery(d: Demand) -> bool {
    d.delivery.1.value != 0
}

impl Demand {
    /// The pickup half of a pickup/delivery pair, with dynamic demand `value`.
    pub fn pudo_pickup(value: i32) -> (r: Demand)
        ensures
            r.pickup.0.value == 0,
            r.pickup.1.value == value,
            r.delivery.0.value == 0,
            r.delivery.1.value == 0,
    {
        Demand {
            pickup: (SingleDimLoad::new(0), SingleDimLoad::new(value)),
            delivery: (SingleDimLoad::new(0), SingleDimLoad::new(0)),
        }
    }

    /// The delivery half of a pickup/delivery pair, with dynamic demand `value`.
    pub fn pudo_delivery(value: i32) -> (r: Demand)
        ensures
            r.pickup.0.value == 0,
            r.pickup.1.value == 0,
            r.delivery.0.value == 0,
            r.delivery.1.value == value,
    {
        Demand {
            pickup: (SingleDimLoad::new(0), SingleDimLoad::new(0)),
            delivery: (SingleDimLoad::new(0), SingleDimLoad::new(value)),
        }
    }
}

/// A candidate place of a job: where it may be served, for how long, and in
/// which time windows.
#[derive(Debug)]
pub struct JobPlace {
    pub location: Option<Location>,
    pub duration: Duration,
    pub times: Vec<TimeWindow>,
}

/// The spec-level content of a [`JobPlace`].
#[verifier::ext_equal]
pub struct JobPlaceView {
    pub location: Option<Location>,
    pub duration: Duration,
    pub times: Seq<TimeWindow>,
}

impl View for JobPlace {
    type V = JobPlaceView;

    open spec fn view(&self) -> JobPlaceView {
        JobPlaceView { location: self.location, duration: self.duration, times: self.times@ }
    }
}

impl Clone for JobPlace {
    fn clone(&self) -> (r: Self)
        ensures
            r@ == self@,
    {
        let mut times: Vec<TimeWindow> = Vec::new();
        let mut i: usize = 0;
        while i < self.times.len()
            invariant
                i <= self.times.len(),
                times@ == self.times@.subrange(0, i as int),
            decreases self.times.len() - i,
        {
            times.push(self.times[i]);
            proof {
                assert(times@ =~= self.times@.subrange(0, i as int + 1));
            }
            i = i + 1;
        }
        proof {
            assert(self.times@.subrange(0, self.times@.len() as int) =~= self.times@);
        }
        let r = JobPlace { location: self.location, duration: self.duration, times };
        proof {
            assert(r@ =~= self@);
        }
        r
    }
}

/// The weak parent record carried by a single that belongs to a multi: the
/// parent's identifier and a copy of its shared attribute store.
#[derive(Debug)]
pub struct MultiRef {
    pub id: u64,
    pub dimens: Dimensions,
}

impl Clone for MultiRef {
    fn clone(&self) -> (r: Self)
        ensures
            r.id == self.id,
            r.dimens@ == self.dimens@,
    {
        MultiRef { id: self.id, dimens: self.dimens.clone() }
    }
}

/// One visit record: candidate places and an attribute store.
#[derive(Debug)]
pub struct Single {
    pub places: Vec<JobPlace>,
    pub dimens: Dimensions,
    /// The parent record, set when the single is bound into a multi.
    pub owner: Option<Box<MultiRef>>,
}

impl Single {
    /// The parent record, if this single was bound into a multi.
    pub open spec fn spec_owner(self) -> Option<MultiRef> {
        match self.owner {
            Some(b) => Some(*b),
            None => None,
        }
    }

    /// The parent's identifier and attribute-store view, if any.
    pub open spec fn spec_owner_view(self) -> Option<(u64, DimensionsView)> {
        match self.spec_owner() {
            Some(m) => Some((m.id, m.dimens@)),
            None => None,
        }
    }

    /// Creates an unbound single.
    pub fn new(places: Vec<JobPlace>, dimens: Dimensions) -> (r: Single)
        ensures
            r.places == places,
            r.dimens == dimens,
            r.spec_owner() is None,
    {
        Single { places, dimens, owner: None }
    }

    #[verifier::inline]
    pub(crate) open spec fn spec_with_owner(self, owner: MultiRef) -> Single {
        Single { owner: Some(Box::new(owner)), ..self }
    }

    pub(crate) fn bind(&mut self, owner: MultiRef)
        ensures
            *final(self) == old(self).spec_with_owner(owner),
    {
        self.owner = Some(Box::new(owner));
    }
}

impl Clone for Single {
    fn clone(&self) -> (r: Self)
        ensures
            r.places@.len() == self.places@.len(),
            forall|i: int| 0 <= i < self.places@.len() ==> r.places@[i]@ == #[trigger] self.places@[i]@,
            r.dimens@ == self.dimens@,
            r.spec_owner_view() == self.spec_owner_view(),
    {
        let mut places: Vec<JobPlace> = Vec::new();
        let mut i: usize = 0;
        while i < self.places.len()
            invariant
                i <= self.places.len(),
                places@.len() == i,
                forall|k: int| 0 <= k < i ==> places@[k]@ == #[trigger] self.places@[k]@,
            decreases self.places.len() - i,
        {
            places.push(self.places[i].clone());
            i = i + 1;
        }
        Single {
            places,
            dimens: self.dimens.clone(),
            owner: match &self.owner {
                Some(b) => Some(Box::new((**b).clone())),
                None => None,
            },
        }
    }
}

/// A parent job grouping several singles that must be served together.
#[derive(Debug)]
pub struct Multi {
    pub id: u64,
    pub jobs: Vec<Single>,
    pub dimens: Dimensions,
}

impl Multi {
    /// Every child carries this multi's parent record.
    pub open spec fn spec_bound(self) -> bool {
        forall|i: int|
            0 <= i < self.jobs@.len() ==> #[trigger] self.jobs@[i].spec_owner_view() == Some(
                (self.id, self.dimens@),
            )
    }

    /// Creates a multi that owns `jobs`, binding each child to the parent
    /// record.  The caller assigns a fresh `id` per multi; children of the
    /// same multi are recognised through it.
    pub fn new_shared(id: u64, jobs: Vec<Single>, dimens: Dimensions) -> (r: Multi)
        ensures
            r.id == id,
            r.dimens == dimens,
            r.jobs@.len() == jobs@.len(),
            forall|i: int| 0 <= i < jobs@.len() ==> #[trigger] r.jobs@[i].places == jobs@[i].places,
            forall|i: int| 0 <= i < jobs@.len() ==> #[trigger] r.jobs@[i].dimens == jobs@[i].dimens,
            r.spec_bound(),
    {
        let ghost orig = jobs@;
        let mut rest = jobs;
        let mut bound: Vec<Single> = Vec::new();
        while rest.len() > 0
            invariant
                bound@.len() + rest@.len() == orig.len(),
                rest@ == orig.subrange(bound@.len() as int, orig.len() as int),
                forall|i: int|
                    0 <= i < bound@.len() ==> #[trigger] bound@[i].places == orig[i].places,
                forall|i: int|
                    0 <= i < bound@.len() ==> #[trigger] bound@[i].dimens == orig[i].dimens,
                forall|i: int|
                    0 <= i < bound@.len() ==> #[trigger] bound@[i].spec_owner_view() == Some(
                        (id, dimens@),
                    ),
            decreases rest.len(),
        {
            let mut s = rest.remove(0);
            s.bind(MultiRef { id, dimens: dimens.clone() });
            bound.push(s);
            proof {
                assert(rest@ =~= orig.subrange(bound@.len() as int, orig.len() as int));
            }
        }
        Multi { id, jobs: bound, dimens }
    }

    /// Resolves the parent record of a single, if it was bound into a multi.
    pub fn roots(single: &Single) -> (r: Option<&MultiRef>)
        ensures
            (match r {
                Some(m) => single.spec_owner() == Some(*m),
                None => single.spec_owner() is None,
            }),
    {
        match &single.owner {
            Some(b) => Some(&**b),
            None => None,
        }
    }
}

/// A unit of work: one visit or a grouped set of visits.
#[derive(Debug)]
pub enum Job {
    Single(Single),
    Multi(Multi),
}

impl Job {
    /// The attribute store of the job itself: the single's own store, or the
    /// multi's shared store.
    pub open spec fn spec_dimens(self) -> Dimensions {
        match self {
            Job::Single(s) => s.dimens,
            Job::Multi(m) => m.dimens,
        }
    }

    pub fn dimens(&self) -> (r: &Dimensions)
        ensures
            *r == self.spec_dimens(),
    {
        match self {
            Job::Single(s) => &s.dimens,
            Job::Multi(m) => &m.dimens,
        }
    }
}

/// One scheduled visit inside a route: the chosen place, the committed
/// schedule, and the single it serves (`None` for structural stops such as
/// the route's start and end).
#[derive(Debug)]
pub struct Activity {
    pub place: Place,
    pub schedule: Schedule,
    pub job: Option<Single>,
}

/// The concrete place an activity is scheduled at.
#[derive(Clone, Copy, Debug, PartialEq, Eq, Structural)]
pub struct Place {
    pub idx: usize,
    pub location: Location,
    pub duration: Duration,
    pub time: TimeWindow,
}

/// Whether an activity's times stay within the bound that keeps schedule
/// arithmetic free of overflow.
pub open spec fn spec_wf_activity(a: Activity) -> bool {
    &&& a.schedule.arrival <= MAX_TIME
    &&& a.schedule.departure <= MAX_TIME
    &&& a.place.duration <= MAX_TIME
    &&& a.place.time.start <= MAX_TIME
    &&& a.place.time.end <= MAX_TIME
}

/// Whether a tour is small enough, with every activity's times bounded, for
/// chained arrival estimates to stay within range.
pub open spec fn spec_wf_tour(activities: Seq<Activity>) -> bool {
    &&& activities.len() <= MAX_ACTIVITIES
    &&& forall|i: int| 0 <= i < activities.len() ==> spec_wf_activity(#[trigger] activities[i])
}

/// The ordered sequence of activities of one vehicle's route, together with
/// the distinct jobs it serves.  A multi contributes several activities but
/// counts once among the jobs; the committing driver keeps `jobs` in step
/// with the activities.
#[derive(Debug)]
pub struct Tour {
    pub activities: Vec<Activity>,
    pub jobs: Vec<Job>,
}

impl Tour {
    pub fn new() -> (r: Tour)
        ensures
            r.activities@.len() == 0,
            r.jobs@.len() == 0,
    {
        Tour { activities: Vec::new(), jobs: Vec::new() }
    }

    /// The activity at `idx`, if the index is within the tour.
    pub fn get(&self, idx: usize) -> (r: Option<&Activity>)
        ensures
            (match r {
                Some(a) => idx < self.activities@.len() && *a == self.activities@[idx as int],
                None => idx >= self.activities@.len(),
            }),
    {
        if idx < self.activities.len() {
            Some(&self.activities[idx])
        } else {
            None
        }
    }

    /// How many activities the tour holds.
    pub fn total(&self) -> (r: usize)
        ensures
            r == self.activities@.len(),
    {
        self.activities.len()
    }

    /// All activities, in tour order.
    pub fn all_activities(&self) -> (r: &Vec<Activity>)
        ensures
            *r == self.activities,
    {
        &self.activities
    }

    /// The distinct jobs this tour serves.
    pub fn jobs(&self) -> (r: &Vec<Job>)
        ensures
            *r == self.jobs,
    {
        &self.jobs
    }
}

/// A vehicle, carrying its attribute store.
#[derive(Debug)]
pub struct Vehicle {
    pub dimens: Dimensions,
}

/// A driver, carrying its attribute store.
#[derive(Debug)]
pub struct Driver {
    pub dimens: Dimensions,
}

/// The vehicle/driver pairing a route is assigned to.
#[derive(Debug)]
pub struct Actor {
    pub vehicle: Vehicle,
    pub driver: Driver,
}

/// A committed tour with the actor serving it.
#[derive(Debug)]
pub struct Route {
    pub actor: Actor,
    pub tour: Tour,
}

} // verus!
