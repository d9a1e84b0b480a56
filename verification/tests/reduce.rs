use windy_pws::measure::{fahrenheit_to_celsius, kmh_to_mps, mph_to_mps};
use windy_pws::{Milli, RawSample, ReduceError, SampleField, reduce};

fn empty_sample() -> RawSample {
    RawSample { wind_speed: None, wind_direction: None, temperature: None, relative_humidity: None }
}

fn wind(v: i64) -> RawSample {
    let mut s = empty_sample();
    s.wind_speed = Some(Milli::of_whole(v));
    s
}

#[test]
fn mean_of_all_present_values() {
    let samples = vec![wind(10), wind(20), wind(30)];
    let o = reduce(1, &samples).expect("reduction succeeds");
    assert_eq!(o.station, 1);
    assert_eq!(o.wind, Some(Milli::of_whole(20)));
}

#[test]
fn mean_skips_absent_values_entirely() {
    // Temperature present in only 2 of 5 samples: the mean is over those 2.
    let mut samples = vec![wind(1), wind(1), wind(1), wind(1), wind(1)];
    samples[1].temperature = Some(Milli::of_whole(10));
    samples[3].temperature = Some(Milli::of_whole(30));
    let o = reduce(1, &samples).expect("reduction succeeds");
    assert_eq!(o.temp, Some(Milli::of_whole(20)));
    assert_eq!(o.wind, Some(Milli::of_whole(1)));
}

#[test]
fn gust_is_peak_of_present_wind_speeds() {
    let samples = vec![wind(5), wind(12), wind(3)];
    let o = reduce(1, &samples).expect("reduction succeeds");
    assert_eq!(o.gust, Some(Milli::of_whole(12)));
}

#[test]
fn direction_mean_is_linear_not_circular() {
    // Documented flawed linear mean at the 0/360 boundary: 350 and 10
    // average to 180, not 0.
    let mut samples = vec![wind(1), wind(1)];
    samples[0].wind_direction = Some(350);
    samples[1].wind_direction = Some(10);
    let o = reduce(1, &samples).expect("reduction succeeds");
    assert_eq!(o.wind_direction, Some(180));
}

#[test]
fn empty_batch_fails_explicitly() {
    let samples: Vec<RawSample> = vec![];
    assert_eq!(reduce(1, &samples), Err(ReduceError::EmptyBatchError));
}

#[test]
fn missing_wind_data_fails_explicitly() {
    let mut s = empty_sample();
    s.temperature = Some(Milli::of_whole(20));
    let samples = vec![s];
    assert_eq!(
        reduce(1, &samples),
        Err(ReduceError::NoDataForFieldError { field: SampleField::WindSpeed })
    );
}

#[test]
fn optional_outputs_absent_without_data() {
    let samples = vec![wind(4)];
    let o = reduce(9, &samples).expect("reduction succeeds");
    assert_eq!(o.station, 9);
    assert_eq!(o.wind, Some(Milli::of_whole(4)));
    assert_eq!(o.gust, Some(Milli::of_whole(4)));
    assert!(o.wind_direction.is_none());
    assert!(o.temp.is_none());
    assert!(o.relative_humidity.is_none());
    assert!(o.dateutc.is_none());
    assert!(o.dew_point.is_none());
    assert!(o.pressure.is_none());
    assert!(o.precipitation.is_none());
    assert!(o.uv.is_none());
}

#[test]
fn mean_rounds_halves_away_from_zero() {
    // 0.001 and 0.002 average to 0.0015, which rounds to 0.002.
    let mut a = empty_sample();
    a.wind_speed = Some(Milli::new(1));
    let mut b = empty_sample();
    b.wind_speed = Some(Milli::new(2));
    let o = reduce(1, &vec![a, b]).expect("reduction succeeds");
    assert_eq!(o.wind, Some(Milli::new(2)));
    // Mirrored for negative values: -0.0015 rounds to -0.002.
    let mut c = empty_sample();
    c.wind_speed = Some(Milli::new(-1));
    let mut d = empty_sample();
    d.wind_speed = Some(Milli::new(-2));
    let o2 = reduce(1, &vec![c, d]).expect("reduction succeeds");
    assert_eq!(o2.wind, Some(Milli::new(-2)));
}

#[test]
fn humidity_mean_over_present_values() {
    let mut a = wind(1);
    a.relative_humidity = Some(Milli::of_whole(40));
    let mut b = wind(1);
    b.relative_humidity = Some(Milli::of_whole(51));
    let o = reduce(1, &vec![a, b]).expect("reduction succeeds");
    assert_eq!(o.relative_humidity, Some(Milli::new(45_500)));
}

#[test]
fn fahrenheit_to_celsius_exact_formula() {
    assert_eq!(fahrenheit_to_celsius(Milli::of_whole(68)), Milli::of_whole(20));
    assert_eq!(fahrenheit_to_celsius(Milli::of_whole(32)), Milli::of_whole(0));
    // (100 - 32) * 5 / 9 = 37.777..., rounded to 37.778.
    assert_eq!(fahrenheit_to_celsius(Milli::of_whole(100)), Milli::new(37_778));
    // (-40 F) is exactly -40 C.
    assert_eq!(fahrenheit_to_celsius(Milli::of_whole(-40)), Milli::of_whole(-40));
}

#[test]
fn mph_to_mps_fixed_factor() {
    // 10 mph * 0.44704 = 4.4704 m/s, rounded to 4.470.
    assert_eq!(mph_to_mps(Milli::of_whole(10)), Milli::new(4_470));
    // 5 mph * 0.44704 = 2.2352 m/s, rounded to 2.235.
    assert_eq!(mph_to_mps(Milli::of_whole(5)), Milli::new(2_235));
    // 12 mph * 0.44704 = 5.36448 m/s, rounded to 5.364.
    assert_eq!(mph_to_mps(Milli::of_whole(12)), Milli::new(5_364));
}

#[test]
fn kmh_to_mps_exact_ratio() {
    // 36 km/h is exactly 10 m/s.
    assert_eq!(kmh_to_mps(Milli::of_whole(36)), Milli::of_whole(10));
    // 5 km/h = 1.3888... m/s, rounded to 1.389.
    assert_eq!(kmh_to_mps(Milli::of_whole(5)), Milli::new(1_389));
    // 12 km/h = 3.3333... m/s, rounded to 3.333.
    assert_eq!(kmh_to_mps(Milli::of_whole(12)), Milli::new(3_333));
}

#[test]
fn gust_after_unit_conversion() {
    // Raw speeds arrive in km/h and are converted before reduction; the
    // gust is the converted peak.
    let raw = vec![5i64, 12, 3];
    let samples: Vec<RawSample> = raw
        .iter()
        .map(|v| {
            let mut s = empty_sample();
            s.wind_speed = Some(kmh_to_mps(Milli::of_whole(*v)));
            s
        })
        .collect();
    let o = reduce(1, &samples).expect("reduction succeeds");
    assert_eq!(o.gust, Some(Milli::new(3_333)));
}
