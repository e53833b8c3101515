use vrp_core::CapacityDimensionMapping;
use vrp_core::Demand;
use vrp_core::Dimensions;
use vrp_core::Job;
use vrp_core::Multi;
use vrp_core::JobPreferences;
use vrp_core::Single;
use vrp_core::TagSet;
use vrp_core::TransportCosts;
use vrp_core::MAX_TIME;

fn strings(items: Vec<&str>) -> Vec<String> {
    items.iter().map(|s| s.to_string()).collect()
}

#[test]
fn capacity_mapping_keeps_declared_names_in_order() {
    let names = strings(vec!["seated", "wheelchair", "stroller"]);
    let mapping = CapacityDimensionMapping::from_names(&names);

    assert_eq!(mapping.names(), &names[..]);
}

#[test]
fn capacity_mapping_resolves_named_demand_positionally() {
    let names = strings(vec!["seated", "wheelchair", "stroller"]);
    let mapping = CapacityDimensionMapping::from_names(&names);

    let named = vec![("wheelchair".to_string(), 1), ("seated".to_string(), 3)];
    let resolved = mapping.resolve_demand(&named);

    assert_eq!(resolved, vec![3, 1, 0]);
}

#[test]
fn capacity_mapping_ignores_unknown_names() {
    let names = strings(vec!["seated", "wheelchair"]);
    let mapping = CapacityDimensionMapping::from_names(&names);

    let named = vec![("bicycle".to_string(), 7), ("seated".to_string(), 2)];
    let resolved = mapping.resolve_demand(&named);

    assert_eq!(resolved, vec![2, 0]);
}

#[test]
fn capacity_mapping_lets_the_last_entry_win() {
    let names = strings(vec!["seated"]);
    let mapping = CapacityDimensionMapping::from_names(&names);

    let named = vec![("seated".to_string(), 1), ("seated".to_string(), 5)];
    let resolved = mapping.resolve_demand(&named);

    assert_eq!(resolved, vec![5]);
}

#[test]
fn capacity_mapping_of_no_names_resolves_to_empty() {
    let mapping = CapacityDimensionMapping::from_names(&[]);

    let named = vec![("seated".to_string(), 2)];
    assert_eq!(mapping.resolve_demand(&named), Vec::<i32>::new());
}

#[test]
fn duplicate_attribute_entries_count_once() {
    let prefs = JobPreferences::new(
        None,
        None,
        Some(strings(vec!["shift:night", "shift:night"])),
        None,
    );

    let mut attrs = TagSet::new();
    attrs.insert("shift:night".to_string());

    assert_eq!(prefs.avoid.as_ref().unwrap().len(), 1);
    assert_eq!(prefs.count_avoided(Some(&attrs)), 1);
}

#[test]
fn tag_set_drops_duplicates_and_keeps_membership() {
    let mut set = TagSet::new();
    set.insert("wheelchair".to_string());
    set.insert("wheelchair".to_string());
    set.insert("stroller".to_string());

    assert_eq!(set.len(), 2);
    assert!(set.contains(&"wheelchair".to_string()));
    assert!(set.contains(&"stroller".to_string()));
    assert!(!set.contains(&"bike".to_string()));
}

#[test]
fn transport_accepts_bounded_durations() {
    let transport = TransportCosts::new(vec![vec![0, 10], vec![10, 0]]).unwrap();

    assert_eq!(transport.duration(0, 1), 10);
    assert_eq!(transport.duration(1, 0), 10);
    assert_eq!(transport.duration(0, 0), 0);
}

#[test]
fn transport_reads_zero_outside_the_matrix() {
    let transport = TransportCosts::new(vec![vec![0, 10], vec![10, 0]]).unwrap();

    assert_eq!(transport.duration(0, 5), 0);
    assert_eq!(transport.duration(7, 0), 0);
}

#[test]
fn transport_rejects_durations_above_the_supported_bound() {
    let result = TransportCosts::new(vec![vec![0, MAX_TIME + 1]]);

    assert!(result.is_err());
}

#[test]
fn multi_shared_attribute_round_trips_through_job() {
    // A shared attribute set only on the multi is retrievable identically
    // from every child single via the parent lookup, and stays so after the
    // multi is wrapped in a job union value.
    let mut pickup_dimens = Dimensions::default();
    pickup_dimens.set_job_demand(Demand::pudo_pickup(1));
    let pickup = Single::new(Vec::new(), pickup_dimens);

    let mut delivery_dimens = Dimensions::default();
    delivery_dimens.set_job_demand(Demand::pudo_delivery(1));
    let delivery = Single::new(Vec::new(), delivery_dimens);

    let mut dimens = Dimensions::default();
    dimens.set_job_max_ride_duration(600);

    let multi = Multi::new_shared(7, vec![pickup, delivery], dimens);

    let from_first = *Multi::roots(&multi.jobs[0]).unwrap().dimens.get_job_max_ride_duration().unwrap();
    let from_second =
        *Multi::roots(&multi.jobs[1]).unwrap().dimens.get_job_max_ride_duration().unwrap();
    assert_eq!(from_first, 600);
    assert_eq!(from_first, from_second);

    let job = Job::Multi(multi);
    assert_eq!(job.dimens().get_job_max_ride_duration(), Some(&600));
    match &job {
        Job::Multi(m) => {
            let via_child =
                *Multi::roots(&m.jobs[0]).unwrap().dimens.get_job_max_ride_duration().unwrap();
            assert_eq!(via_child, 600);
        },
        Job::Single(_) => unreachable!(),
    }
}
