//! The typed attribute store attached to jobs, vehicles and drivers.
//!
//! Every attribute a feature reads or writes is a fixed, typed key of this
//! store: a key that was never set reads as absent, and each key's value type
//! is fixed crate-wide, so two features can never reinterpret the same key at
//! different types.

use vstd::prelude::*;

use crate::common::Duration;
use crate::common::TagSet;
use crate::common::Timestamp;
use crate::lifo_ordering::LifoGroupId;
use crate::model::Demand;
use crate::preferences::JobPreferences;
use crate::preferences::JobPreferencesView;
use crate::requested_time::RequestedTimes;

verus! {

/// The spec-level content of a [`Dimensions`] store.
#[verifier::ext_equal]
pub struct DimensionsView {
    pub job_id: Option<Seq<char>>,
    pub job_demand: Option<Demand>,
    pub job_max_ride_duration: Option<Duration>,
    pub lifo_tag: Option<Seq<char>>,
    pub lifo_group: Option<LifoGroupId>,
    pub vehicle_lifo_tags: Option<Seq<Seq<char>>>,
    pub vehicle_attributes: Option<Seq<Seq<char>>>,
    pub job_preferences: Option<JobPreferencesView>,
    pub job_requested_times: Option<Seq<(usize, Timestamp)>>,
}

/// A typed, extensible attribute store.  Reading a key that was never set
/// yields `None`.
#[derive(Debug)]
pub struct Dimensions {
    job_id: Option<String>,
    job_demand: Option<Demand>,
    job_max_ride_duration: Option<Duration>,
    lifo_tag: Option<String>,
    lifo_group: Option<LifoGroupId>,
    vehicle_lifo_tags: Option<TagSet>,
    vehicle_attributes: Option<TagSet>,
    job_preferences: Option<JobPreferences>,
    job_requested_times: Option<RequestedTimes>,
}

impl View for Dimensions {
    type V = DimensionsView;

    closed spec fn view(&self) -> DimensionsView {
        DimensionsView {
            job_id: match self.job_id {
                Some(s) => Some(s@),
                None => None,
            },
            job_demand: self.job_demand,
            job_max_ride_duration: self.job_max_ride_duration,
            lifo_tag: match self.lifo_tag {
                Some(s) => Some(s@),
                None => None,
            },
            lifo_group: self.lifo_group,
            vehicle_lifo_tags: match self.vehicle_lifo_tags {
                Some(t) => Some(t@),
                None => None,
            },
            vehicle_attributes: match self.vehicle_attributes {
                Some(t) => Some(t@),
                None => None,
            },
            job_preferences: match self.job_preferences {
                Some(p) => Some(p@),
                None => None,
            },
            job_requested_times: match self.job_requested_times {
                Some(t) => Some(t@),
                None => None,
            },
        }
    }
}

/// The view of an empty attribute store: every key absent.
pub open spec fn spec_empty_dimensions() -> DimensionsView {
    DimensionsView {
        job_id: None,
        job_demand: None,
        job_max_ride_duration: None,
        lifo_tag: None,
        lifo_group: None,
        vehicle_lifo_tags: None,
        vehicle_attributes: None,
        job_preferences: None,
        job_requested_times: None,
    }
}

impl Default for Dimensions {
    fn default() -> (r: Self)
        ensures
            r@ == spec_empty_dimensions(),
    {
        Dimensions {
            job_id: None,
            job_demand: None,
            job_max_ride_duration: None,
            lifo_tag: None,
            lifo_group: None,
            vehicle_lifo_tags: None,
            vehicle_attributes: None,
            job_preferences: None,
            job_requested_times: None,
        }
    }
}

impl Dimensions {
    pub fn set_job_id(&mut self, id: String)
        ensures
            final(self)@ == (DimensionsView { job_id: Some(id@), ..old(self)@ }),
    {
        self.job_id = Some(id);
    }

    pub fn get_job_id(&self) -> (r: Option<&String>)
        ensures
            (match r {
                Some(s) => self@.job_id == Some(s@),
                None => self@.job_id is None,
            }),
    {
        self.job_id.as_ref()
    }

    pub fn set_job_demand(&mut self, demand: Demand)
        ensures
            final(self)@ == (DimensionsView { job_demand: Some(demand), ..old(self)@ }),
    {
        self.job_demand = Some(demand);
    }

    pub fn get_job_demand(&self) -> (r: Option<&Demand>)
        ensures
            (match r {
                Some(d) => self@.job_demand == Some(*d),
                None => self@.job_demand is None,
            }),
    {
        self.job_demand.as_ref()
    }

    pub fn set_job_max_ride_duration(&mut self, duration: Duration)
        ensures
            final(self)@ == (DimensionsView { job_max_ride_duration: Some(duration), ..old(self)@ }),
    {
        self.job_max_ride_duration = Some(duration);
    }

    pub fn get_job_max_ride_duration(&self) -> (r: Option<&Duration>)
        ensures
            (match r {
                Some(d) => self@.job_max_ride_duration == Some(*d),
                None => self@.job_max_ride_duration is None,
            }),
    {
        self.job_max_ride_duration.as_ref()
    }

    pub fn set_lifo_tag(&mut self, tag: String)
        ensures
            final(self)@ == (DimensionsView { lifo_tag: Some(tag@), ..old(self)@ }),
    {
        self.lifo_tag = Some(tag);
    }

    pub fn get_lifo_tag(&self) -> (r: Option<&String>)
        ensures
            (match r {
                Some(s) => self@.lifo_tag == Some(s@),
                None => self@.lifo_tag is None,
            }),
    {
        self.lifo_tag.as_ref()
    }

    pub fn set_lifo_group(&mut self, group: LifoGroupId)
        ensures
            final(self)@ == (DimensionsView { lifo_group: Some(group), ..old(self)@ }),
    {
        self.lifo_group = Some(group);
    }

    pub fn get_lifo_group(&self) -> (r: Option<&LifoGroupId>)
        ensures
            (match r {
                Some(g) => self@.lifo_group == Some(*g),
                None => self@.lifo_group is None,
            }),
    {
        self.lifo_group.as_ref()
    }

    pub fn set_vehicle_lifo_tags(&mut self, tags: TagSet)
        ensures
            final(self)@ == (DimensionsView { vehicle_lifo_tags: Some(tags@), ..old(self)@ }),
    {
        self.vehicle_lifo_tags = Some(tags);
    }

    pub fn get_vehicle_lifo_tags(&self) -> (r: Option<&TagSet>)
        ensures
            (match r {
                Some(t) => self@.vehicle_lifo_tags == Some(t@),
                None => self@.vehicle_lifo_tags is None,
            }),
    {
        self.vehicle_lifo_tags.as_ref()
    }

    pub fn set_vehicle_attributes(&mut self, attrs: TagSet)
        ensures
            final(self)@ == (DimensionsView { vehicle_attributes: Some(attrs@), ..old(self)@ }),
    {
        self.vehicle_attributes = Some(attrs);
    }

    pub fn get_vehicle_attributes(&self) -> (r: Option<&TagSet>)
        ensures
            (match r {
                Some(t) => self@.vehicle_attributes == Some(t@),
                None => self@.vehicle_attributes is None,
            }),
    {
        self.vehicle_attributes.as_ref()
    }

    pub fn set_job_preferences(&mut self, preferences: JobPreferences)
        ensures
            final(self)@ == (DimensionsView { job_preferences: Some(preferences@), ..old(self)@ }),
    {
        self.job_preferences = Some(preferences);
    }

    pub fn get_job_preferences(&self) -> (r: Option<&JobPreferences>)
        ensures
            (match r {
                Some(p) => self@.job_preferences == Some(p@),
                None => self@.job_preferences is None,
            }),
    {
        self.job_preferences.as_ref()
    }

    pub fn set_job_requested_times(&mut self, times: RequestedTimes)
        ensures
            final(self)@ == (DimensionsView { job_requested_times: Some(times@), ..old(self)@ }),
    {
        self.job_requested_times = Some(times);
    }

    pub fn get_job_requested_times(&self) -> (r: Option<&RequestedTimes>)
        ensures
            (match r {
                Some(t) => self@.job_requested_times == Some(t@),
                None => self@.job_requested_times is None,
            }),
    {
        self.job_requested_times.as_ref()
    }
}

impl Clone for Dimensions {
    fn clone(&self) -> (r: Self)
        ensures
            r@ == self@,
    {
        let r = Dimensions {
            job_id: match &self.job_id {
                Some(s) => Some(s.clone()),
                None => None,
            },
            job_demand: self.job_demand,
            job_max_ride_duration: self.job_max_ride_duration,
            lifo_tag: match &self.lifo_tag {
                Some(s) => Some(s.clone()),
                None => None,
            },
            lifo_group: self.lifo_group,
            vehicle_lifo_tags: match &self.vehicle_lifo_tags {
                Some(t) => Some(t.clone()),
                None => None,
            },
            vehicle_attributes: match &self.vehicle_attributes {
                Some(t) => Some(t.clone()),
                None => None,
            },
            job_preferences: match &self.job_preferences {
                Some(p) => Some(p.clone()),
                None => None,
            },
            job_requested_times: match &self.job_requested_times {
                Some(t) => Some(t.clone()),
                None => None,
            },
        };
        proof {
            assert(r@ =~= self@);
        }
        r
    }
}

} // verus!
