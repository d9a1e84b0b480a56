use windy_pws::{Milli, Observation, Station, WindyRequest, WindyRequestBuilder};

fn obs(station: u32) -> Observation {
    Observation::new(station)
}

fn station(id: u32, name: &str) -> Station {
    let mut st = Station::new(id);
    st.name = Some(name.to_string());
    st
}

#[test]
fn adds_append_in_order() {
    let mut b = WindyRequestBuilder::default();
    b.station(station(1, "a"));
    b.observations(vec![obs(10), obs(11)]);
    b.stations(vec![station(2, "b"), station(3, "c")]);
    b.observation(obs(12));
    b.station(station(4, "d"));
    let r = b.build();
    let stations = r.stations.expect("stations present");
    let observations = r.observations.expect("observations present");
    assert_eq!(
        stations,
        vec![station(1, "a"), station(2, "b"), station(3, "c"), station(4, "d")]
    );
    assert_eq!(observations, vec![obs(10), obs(11), obs(12)]);
}

#[test]
fn add_to_absent_creates_then_appends() {
    let mut b = WindyRequestBuilder::default();
    let empty = b.build();
    assert!(empty.stations.is_none());
    assert!(empty.observations.is_none());
    b.stations(vec![station(1, "a")]);
    b.stations(vec![station(2, "b")]);
    let r = b.build();
    assert_eq!(r.stations, Some(vec![station(1, "a"), station(2, "b")]));
    assert!(r.observations.is_none());
}

#[test]
fn build_twice_identical_and_independent() {
    let mut b = WindyRequestBuilder::default();
    b.observation(obs(5));
    let mut first = b.build();
    let second = b.build();
    assert_eq!(first.observations, second.observations);
    assert_eq!(first.stations, second.stations);
    // Mutating one snapshot must not affect the other, nor the builder.
    first.observations.as_mut().unwrap().push(obs(6));
    assert_eq!(second.observations.as_ref().unwrap().len(), 1);
    let third = b.build();
    assert_eq!(third.observations.as_ref().unwrap().len(), 1);
}

#[test]
fn builder_clone_branches_independently() {
    let mut b = WindyRequestBuilder::default();
    b.observation(obs(5));
    let mut branch = b.clone();
    branch.observation(obs(6));
    assert_eq!(b.build().observations.unwrap().len(), 1);
    assert_eq!(branch.build().observations.unwrap().len(), 2);
}

#[test]
fn builder_mutation_does_not_touch_built_request() {
    let mut b = WindyRequestBuilder::default();
    b.station(station(1, "a"));
    let r = b.build();
    b.station(station(2, "b"));
    assert_eq!(r.stations.unwrap(), vec![station(1, "a")]);
}

#[test]
fn from_observation_matches_incremental() {
    let r = WindyRequest::from_observation(obs(1));
    assert!(r.stations.is_none());
    assert_eq!(r.observations, Some(vec![obs(1)]));
    let rb = WindyRequestBuilder::from_observation(obs(1)).build();
    assert_eq!(rb.observations, r.observations);
}

#[test]
fn from_observations_matches_incremental() {
    let r = WindyRequest::from_observations(vec![obs(1), obs(2)]);
    assert!(r.stations.is_none());
    assert_eq!(r.observations, Some(vec![obs(1), obs(2)]));
}

#[test]
fn from_station_matches_incremental() {
    let r = WindyRequest::from_station(station(1, "a"));
    assert!(r.observations.is_none());
    assert_eq!(r.stations, Some(vec![station(1, "a")]));
}

#[test]
fn from_stations_matches_incremental() {
    let r = WindyRequest::from_stations(vec![station(1, "a"), station(2, "b")]);
    assert!(r.observations.is_none());
    assert_eq!(r.stations, Some(vec![station(1, "a"), station(2, "b")]));
}

#[test]
fn from_station_observation_matches_incremental() {
    let r = WindyRequest::from_station_observation(station(1, "a"), obs(2));
    assert_eq!(r.stations, Some(vec![station(1, "a")]));
    assert_eq!(r.observations, Some(vec![obs(2)]));
}

#[test]
fn from_stations_observationss_matches_incremental() {
    let r = WindyRequest::from_stations_observationss(
        vec![station(1, "a")],
        vec![obs(2), obs(3)],
    );
    assert_eq!(r.stations, Some(vec![station(1, "a")]));
    assert_eq!(r.observations, Some(vec![obs(2), obs(3)]));
}

#[test]
fn milli_constructors() {
    assert_eq!(Milli::new(20_500), Milli { value: 20_500 });
    assert_eq!(Milli::of_whole(-3), Milli { value: -3_000 });
}
