use windy_pws::{DateUtc, Milli, Observation, ShareOption, Station, WindyRequestBuilder};

#[test]
fn observation_all_unset_keeps_only_station() {
    let o = Observation::new(1);
    assert_eq!(o.to_json(), "{\"station\":1}");
}

#[test]
fn station_all_unset_keeps_only_station() {
    let st = Station::new(42);
    assert_eq!(st.to_json(), "{\"station\":42}");
}

#[test]
fn empty_request_renders_as_empty_object() {
    let r = WindyRequestBuilder::default().build();
    assert_eq!(r.to_json(), "{}");
}

#[test]
fn observation_full_renders_every_field_in_order() {
    let mut o = Observation::new(7);
    o.dateutc = Some(DateUtc { year: 2021, month: 1, day: 2, hour: 3, minute: 4, second: 5 });
    o.temp = Some(Milli::new(-500));
    o.wind = Some(Milli::new(3_200));
    o.wind_direction = Some(270);
    o.gust = Some(Milli::new(5_000));
    o.relative_humidity = Some(Milli::new(45_500));
    o.dew_point = Some(Milli::new(10_050));
    o.pressure = Some(Milli::new(101_325_000));
    o.precipitation = Some(Milli::new(250));
    o.uv = Some(3);
    assert_eq!(
        o.to_json(),
        "{\"station\":7,\"dateutc\":\"2021-01-02T03:04:05Z\",\"temp\":-0.5,\"wind\":3.2,\
         \"winddir\":270,\"gust\":5.0,\"rh\":45.5,\"dewpoint\":10.05,\"pressure\":101325.0,\
         \"precip\":0.25,\"uv\":3}"
    );
}

#[test]
fn station_full_renders_every_field_in_order() {
    let mut st = Station::new(9);
    st.share_option = Some(ShareOption::Open);
    st.name = Some("Home".to_string());
    st.latitude = Some(Milli::new(48_200));
    st.longitude = Some(Milli::new(-122_350));
    st.elevation = Some(Milli::new(120_000));
    st.tempmeter_height = Some(Milli::new(2_000));
    st.windmeter_height = Some(Milli::new(10_000));
    assert_eq!(
        st.to_json(),
        "{\"station\":9,\"shareOption\":\"Open\",\"name\":\"Home\",\"latitude\":48.2,\
         \"longitude\":-122.35,\"elevation\":120.0,\"tempheight\":2.0,\"windheight\":10.0}"
    );
}

#[test]
fn share_option_wire_names() {
    let mut st = Station::new(1);
    st.share_option = Some(ShareOption::OnlyWindy);
    assert_eq!(st.to_json(), "{\"station\":1,\"shareOption\":\"Only Windy\"}");
    st.share_option = Some(ShareOption::Private);
    assert_eq!(st.to_json(), "{\"station\":1,\"shareOption\":\"Private\"}");
}

#[test]
fn station_name_is_escaped() {
    let mut st = Station::new(1);
    st.name = Some("a\"b\\c\n".to_string());
    assert_eq!(st.to_json(), "{\"station\":1,\"name\":\"a\\\"b\\\\c\\u000a\"}");
}

#[test]
fn negative_direction_and_uv_render_signed() {
    let mut o = Observation::new(2);
    o.wind_direction = Some(-45);
    o.uv = Some(-1);
    assert_eq!(o.to_json(), "{\"station\":2,\"winddir\":-45,\"uv\":-1}");
}

#[test]
fn milli_fraction_trims_trailing_zeros() {
    let mut o = Observation::new(1);
    o.temp = Some(Milli::new(50));
    assert_eq!(o.to_json(), "{\"station\":1,\"temp\":0.05}");
    o.temp = Some(Milli::new(20_500));
    assert_eq!(o.to_json(), "{\"station\":1,\"temp\":20.5}");
    o.temp = Some(Milli::new(20_000));
    assert_eq!(o.to_json(), "{\"station\":1,\"temp\":20.0}");
    o.temp = Some(Milli::new(20_001));
    assert_eq!(o.to_json(), "{\"station\":1,\"temp\":20.001}");
}

#[test]
fn end_to_end_station_and_observation() {
    let mut o = Observation::new(1);
    o.temp = Some(Milli::of_whole(20));
    let mut st = Station::new(1);
    st.name = Some("Home".to_string());
    let mut b = WindyRequestBuilder::default();
    b.station(st);
    b.observation(o);
    let r = b.build();
    assert_eq!(
        r.to_json(),
        "{\"stations\":[{\"station\":1,\"name\":\"Home\"}],\
         \"observations\":[{\"station\":1,\"temp\":20.0}]}"
    );
}

#[test]
fn request_with_only_observations_omits_stations_key() {
    let mut b = WindyRequestBuilder::default();
    b.observation(Observation::new(1));
    b.observation(Observation::new(2));
    let r = b.build();
    assert_eq!(r.to_json(), "{\"observations\":[{\"station\":1},{\"station\":2}]}");
}

#[test]
fn output_is_valid_json_with_expected_values() {
    let mut o = Observation::new(7);
    o.temp = Some(Milli::new(-500));
    o.wind = Some(Milli::new(3_200));
    let mut st = Station::new(7);
    st.name = Some("He said \"hi\"".to_string());
    let mut b = WindyRequestBuilder::default();
    b.station(st);
    b.observation(o);
    let text = b.build().to_json();
    let v: serde_json::Value = serde_json::from_str(&text).expect("valid JSON");
    assert_eq!(v["stations"][0]["station"], serde_json::Value::from(7));
    assert_eq!(v["stations"][0]["name"], serde_json::Value::from("He said \"hi\""));
    assert_eq!(v["observations"][0]["temp"], serde_json::Value::from(-0.5));
    assert_eq!(v["observations"][0]["wind"], serde_json::Value::from(3.2));
    assert!(v["observations"][0].get("gust").is_none());
}

#[test]
fn extreme_values_render_exactly() {
    let mut o = Observation::new(u32::MAX);
    o.temp = Some(Milli::new(i64::MIN));
    o.wind_direction = Some(i32::MIN);
    assert_eq!(
        o.to_json(),
        "{\"station\":4294967295,\"temp\":-9223372036854775.808,\"winddir\":-2147483648}"
    );
}
