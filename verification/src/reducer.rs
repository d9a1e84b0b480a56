//! Observation reduction.
//!
//! A sampling window delivers an ordered batch of raw sensor samples,
//! each with independently-optional fields.  [`reduce`] folds such a
//! batch into one [`Observation`]: wind speed, wind direction,
//! temperature and relative humidity are averaged over the samples where
//! they are present, the gust is the peak of the present wind speeds,
//! and every other output field is left absent.
//!
//! The wind-direction average is a plain linear mean, not a circular
//! one: samples of 350 and 10 degrees average to 180, not 0.  That
//! matches the historical output this library is compatible with, and is
//! kept deliberately; a circular mean would be a behavior change.
//!
//! An empty batch, or a batch with no wind-speed sample at all, fails
//! explicitly rather than dividing by zero.

use vstd::prelude::*;
use crate::measure::{Milli, abs_int, lemma_round_div_range, round_div, round_div_i128};
use crate::observation::Observation;

verus! {

/// One raw sensor sample, already in canonical units: wind speed in
/// meters per second, direction in degrees, temperature in degrees
/// Celsius, humidity in percent.  Each field is independently optional.
#[derive(Clone, Copy, PartialEq, Debug)]
pub struct RawSample {
    /// Wind speed in meters per second.
    pub wind_speed: Option<Milli>,
    /// Wind direction in degrees.
    pub wind_direction: Option<i32>,
    /// Temperature in degrees Celsius.
    pub temperature: Option<Milli>,
    /// Relative humidity in percent.
    pub relative_humidity: Option<Milli>,
}

/// The fields a raw sample can carry.
#[derive(Clone, Copy, PartialEq, Eq, Structural, Debug)]
pub enum SampleField {
    WindSpeed,
    WindDirection,
    Temperature,
    RelativeHumidity,
}

/// Why a reduction failed.
#[derive(Clone, Copy, PartialEq, Eq, Structural, Debug)]
pub enum ReduceError {
    /// The input sample sequence was empty.
    EmptyBatchError,
    /// A field required in the output had zero present samples.
    NoDataForFieldError { field: SampleField },
}

/// The value one field takes in one sample, as a plain integer in
/// thousandths (directions in whole degrees).
pub open spec fn sample_field(f: SampleField, r: RawSample) -> Option<int> {
    match f {
        SampleField::WindSpeed => match r.wind_speed {
            Option::Some(m) => Option::Some(m@),
            Option::None => Option::None,
        },
        SampleField::WindDirection => match r.wind_direction {
            Option::Some(d) => Option::Some(d as int),
            Option::None => Option::None,
        },
        SampleField::Temperature => match r.temperature {
            Option::Some(m) => Option::Some(m@),
            Option::None => Option::None,
        },
        SampleField::RelativeHumidity => match r.relative_humidity {
            Option::Some(m) => Option::Some(m@),
            Option::None => Option::None,
        },
    }
}

/// The column of values one field takes over a sample sequence, in
/// order.
pub open spec fn field_values(f: SampleField, s: Seq<RawSample>) -> Seq<Option<int>> {
    s.map_values(|r: RawSample| sample_field(f, r))
}

/// The sum of the present values of a column.
pub open spec fn present_sum(s: Seq<Option<int>>) -> int
    decreases s.len(),
{
    if s.len() == 0 {
        0
    } else {
        present_sum(s.drop_last()) + (match s.last() {
            Option::Some(v) => v,
            Option::None => 0,
        })
    }
}

/// How many values of a column are present.
pub open spec fn present_count(s: Seq<Option<int>>) -> nat
    decreases s.len(),
{
    if s.len() == 0 {
        0
    } else {
        present_count(s.drop_last()) + (match s.last() {
            Option::Some(v) => 1nat,
            Option::None => 0nat,
        })
    }
}

/// The largest present value of a column.
pub open spec fn present_max(s: Seq<Option<int>>) -> int
    recommends
        present_count(s) > 0,
    decreases s.len(),
{
    if s.len() == 0 {
        0
    } else {
        match s.last() {
            Option::Some(v) => if present_count(s.drop_last()) == 0 || v > present_max(
                s.drop_last(),
            ) {
                v
            } else {
                present_max(s.drop_last())
            },
            Option::None => present_max(s.drop_last()),
        }
    }
}

/// The arithmetic mean of the present values of a column, rounded to the
/// nearest integer, halves away from zero.  Absent values contribute to
/// neither the numerator nor the divisor.
pub open spec fn present_mean(s: Seq<Option<int>>) -> int
    recommends
        present_count(s) > 0,
{
    round_div(present_sum(s), present_count(s) as int)
}

/// A sample in which a field is absent contributes to neither the
/// numerator nor the divisor of that field's reduction: dropping the
/// absent entry from a column leaves the sum, the count, the maximum
/// and therefore the mean untouched, wherever in the column it stands.
/// This holds for every field alike, since each field's column is a
/// `Seq<Option<int>>` ([`field_values`]).
pub proof fn lemma_absent_sample_excluded(s1: Seq<Option<int>>, s2: Seq<Option<int>>)
    ensures
        present_sum(s1 + seq![Option::<int>::None] + s2) == present_sum(s1 + s2),
        present_count(s1 + seq![Option::<int>::None] + s2) == present_count(s1 + s2),
        present_max(s1 + seq![Option::<int>::None] + s2) == present_max(s1 + s2),
        present_mean(s1 + seq![Option::<int>::None] + s2) == present_mean(s1 + s2),
    decreases s2.len(),
{
    let a = s1 + seq![Option::<int>::None] + s2;
    let b = s1 + s2;
    if s2.len() == 0 {
        assert(a.drop_last() =~= s1);
        assert(a.last() is None);
        assert(b =~= s1);
    } else {
        lemma_absent_sample_excluded(s1, s2.drop_last());
        assert(a.drop_last() =~= s1 + seq![Option::<int>::None] + s2.drop_last());
        assert(b.drop_last() =~= s1 + s2.drop_last());
        assert(a.last() == s2.last());
        assert(b.last() == s2.last());
    }
}

/// The mathematical value of a materialized column.
pub open spec fn col_view(s: Seq<Option<i64>>) -> Seq<Option<int>> {
    s.map_values(
        |o: Option<i64>|
            match o {
                Option::Some(x) => Option::Some(x as int),
                Option::None => Option::None,
            },
    )
}

/// Materializes the column of one field over a sample batch.
fn field_column(samples: &Vec<RawSample>, field: SampleField) -> (col: Vec<Option<i64>>)
    ensures
        col@.len() == samples@.len(),
        col_view(col@) == field_values(field, samples@),
{
    let ghost target = field_values(field, samples@);
    let mut col: Vec<Option<i64>> = Vec::new();
    let mut i: usize = 0;
    while i < samples.len()
        invariant
            i <= samples@.len(),
            col@.len() == i,
            target == field_values(field, samples@),
            col_view(col@) == target.take(i as int),
        decreases samples@.len() - i,
    {
        let s = samples[i];
        let v: Option<i64> = match field {
            SampleField::WindSpeed => match s.wind_speed {
                Option::Some(m) => Option::Some(m.value),
                Option::None => Option::None,
            },
            SampleField::WindDirection => match s.wind_direction {
                Option::Some(d) => Option::Some(d as i64),
                Option::None => Option::None,
            },
            SampleField::Temperature => match s.temperature {
                Option::Some(m) => Option::Some(m.value),
                Option::None => Option::None,
            },
            SampleField::RelativeHumidity => match s.relative_humidity {
                Option::Some(m) => Option::Some(m.value),
                Option::None => Option::None,
            },
        };
        let ghost prev = col@;
        col.push(v);
        proof {
            assert forall|k: int| 0 <= k < col@.len() implies col_view(col@)[k] == target.take(
                i as int + 1,
            )[k] by {
                if k < i {
                    assert(col_view(prev)[k] == target.take(i as int)[k]);
                    assert(col@[k] == prev[k]);
                } else {
                    assert(col@[k] == v);
                    assert(target[i as int] == sample_field(field, samples@[i as int]));
                }
            }
            assert(col_view(col@) =~= target.take(i as int + 1));
        }
        i += 1;
    }
    proof {
        assert(target.take(samples@.len() as int) =~= target);
    }
    col
}

/// Folds one column: the sum, the count and the maximum of its present
/// values.  The sum is bracketed by `count * lo` and `count * hi` for
/// any bracket `[lo, hi]` the present values are known to lie in.
fn column_stats(col: &Vec<Option<i64>>, lo: i64, hi: i64) -> (r: (i128, u64, i64))
    requires
        col@.len() < 0x8000_0000_0000_0000,
        lo <= 0 <= hi,
        forall|k: int|
            0 <= k < col@.len() ==> (match #[trigger] col@[k] {
                Option::Some(x) => lo <= x <= hi,
                Option::None => true,
            }),
    ensures
        r.0 as int == present_sum(col_view(col@)),
        r.1 as int == present_count(col_view(col@)),
        r.1 as int <= col@.len(),
        (r.1 as int) * (lo as int) <= r.0 as int <= (r.1 as int) * (hi as int),
        present_count(col_view(col@)) > 0 ==> r.2 as int == present_max(col_view(col@)),
{
    let ghost cv = col_view(col@);
    let mut sum: i128 = 0;
    let mut count: u64 = 0;
    let mut max: i64 = 0;
    let mut i: usize = 0;
    while i < col.len()
        invariant
            i <= col@.len(),
            col@.len() < 0x8000_0000_0000_0000,
            lo <= 0 <= hi,
            forall|k: int|
                0 <= k < col@.len() ==> (match #[trigger] col@[k] {
                    Option::Some(x) => lo <= x <= hi,
                    Option::None => true,
                }),
            cv == col_view(col@),
            sum as int == present_sum(cv.take(i as int)),
            count as int == present_count(cv.take(i as int)),
            count as int <= i,
            (count as int) * (lo as int) <= sum as int <= (count as int) * (hi as int),
            count > 0 ==> max as int == present_max(cv.take(i as int)),
        decreases col@.len() - i,
    {
        proof {
            assert(cv.take(i as int + 1).drop_last() =~= cv.take(i as int));
            assert(cv.take(i as int + 1).last() == cv[i as int]);
        }
        match col[i] {
            Option::Some(x) => {
                proof {
                    assert(lo <= x <= hi);
                    assert((count as int + 1) * (lo as int) == (count as int) * (lo as int)
                        + lo as int) by (nonlinear_arith);
                    assert((count as int + 1) * (hi as int) == (count as int) * (hi as int)
                        + hi as int) by (nonlinear_arith);
                    assert((count as int + 1) * (lo as int)
                        >= -0x4000_0000_0000_0000_0000_0000_0000_0000) by (nonlinear_arith)
                        requires
                            0 <= count as int && count as int + 1 <= 0x8000_0000_0000_0000
                                && -0x8000_0000_0000_0000 <= lo as int <= 0,
                    ;
                    assert((count as int + 1) * (hi as int)
                        <= 0x4000_0000_0000_0000_0000_0000_0000_0000) by (nonlinear_arith)
                        requires
                            0 <= count as int && count as int + 1 <= 0x8000_0000_0000_0000 && 0
                                <= hi as int && (hi as int) < 0x8000_0000_0000_0000,
                    ;
                }
                if count == 0 || x > max {
                    max = x;
                }
                sum = sum + x as i128;
                count = count + 1;
            },
            Option::None => {},
        }
        i += 1;
    }
    proof {
        assert(cv.take(col@.len() as int) =~= cv);
    }
    (sum, count, max)
}

/// Folds an ordered batch of raw samples into one observation for
/// station `station`.
///
/// An empty batch yields `EmptyBatchError`; a non-empty batch with no
/// present wind-speed sample yields `NoDataForFieldError` for the wind
/// speed, the one field the output requires.  Otherwise the result
/// carries the mean of the present wind speeds, their maximum as the
/// gust, and the mean of the present directions, temperatures and
/// humidities where any are present; every other field is absent.
pub fn reduce(station: u32, samples: &Vec<RawSample>) -> (r: Result<Observation, ReduceError>)
    requires
        samples@.len() < 0x8000_0000_0000_0000,
    ensures
        samples@.len() == 0 ==> r == Result::<Observation, ReduceError>::Err(
            ReduceError::EmptyBatchError,
        ),
        samples@.len() > 0 && present_count(field_values(SampleField::WindSpeed, samples@)) == 0
            ==> r == Result::<Observation, ReduceError>::Err(
            ReduceError::NoDataForFieldError { field: SampleField::WindSpeed },
        ),
        r is Ok <==> samples@.len() > 0 && present_count(
            field_values(SampleField::WindSpeed, samples@),
        ) > 0,
        r matches Ok(o) ==> {
            &&& o.station == station
            &&& o.dateutc is None
            &&& (o.wind matches Some(w) && w@ == present_mean(
                field_values(SampleField::WindSpeed, samples@),
            ))
            &&& (o.gust matches Some(g) && g@ == present_max(
                field_values(SampleField::WindSpeed, samples@),
            ))
            &&& (if present_count(field_values(SampleField::WindDirection, samples@)) > 0 {
                o.wind_direction matches Some(d) && d as int == present_mean(
                    field_values(SampleField::WindDirection, samples@),
                )
            } else {
                o.wind_direction is None
            })
            &&& (if present_count(field_values(SampleField::Temperature, samples@)) > 0 {
                o.temp matches Some(t) && t@ == present_mean(
                    field_values(SampleField::Temperature, samples@),
                )
            } else {
                o.temp is None
            })
            &&& (if present_count(field_values(SampleField::RelativeHumidity, samples@)) > 0 {
                o.relative_humidity matches Some(h) && h@ == present_mean(
                    field_values(SampleField::RelativeHumidity, samples@),
                )
            } else {
                o.relative_humidity is None
            })
            &&& o.dew_point is None
            &&& o.pressure is None
            &&& o.precipitation is None
            &&& o.uv is None
        },
{
    if samples.len() == 0 {
        return Err(ReduceError::EmptyBatchError);
    }
    let wind_col = field_column(samples, SampleField::WindSpeed);
    let (wind_sum, wind_count, wind_max) = column_stats(
        &wind_col,
        -0x7fff_ffff_ffff_ffff - 1,
        0x7fff_ffff_ffff_ffff,
    );
    if wind_count == 0 {
        return Err(ReduceError::NoDataForFieldError { field: SampleField::WindSpeed });
    }
    let wind_mean = mean_i64(wind_sum, wind_count);
    let dir_col = field_column(samples, SampleField::WindDirection);
    proof {
        assert forall|k: int| 0 <= k < dir_col@.len() implies (match #[trigger] dir_col@[k] {
            Option::Some(x) => -0x8000_0000 <= x <= 0x7fff_ffff,
            Option::None => true,
        }) by {
            assert(col_view(dir_col@)[k] == field_values(SampleField::WindDirection, samples@)[k]);
        }
    }
    let (dir_sum, dir_count, _) = column_stats(&dir_col, -0x8000_0000, 0x7fff_ffff);
    let wind_direction: Option<i32> = if dir_count == 0 {
        None
    } else {
        let m = mean_i64(dir_sum, dir_count);
        proof {
            lemma_round_div_range(dir_sum as int, dir_count as int, -0x8000_0000, 0x7fff_ffff);
        }
        Some(m as i32)
    };
    let temp_col = field_column(samples, SampleField::Temperature);
    let (temp_sum, temp_count, _) = column_stats(
        &temp_col,
        -0x7fff_ffff_ffff_ffff - 1,
        0x7fff_ffff_ffff_ffff,
    );
    let temp: Option<Milli> = if temp_count == 0 {
        None
    } else {
        Some(Milli { value: mean_i64(temp_sum, temp_count) })
    };
    let rh_col = field_column(samples, SampleField::RelativeHumidity);
    let (rh_sum, rh_count, _) = column_stats(
        &rh_col,
        -0x7fff_ffff_ffff_ffff - 1,
        0x7fff_ffff_ffff_ffff,
    );
    let relative_humidity: Option<Milli> = if rh_count == 0 {
        None
    } else {
        Some(Milli { value: mean_i64(rh_sum, rh_count) })
    };
    Ok(
        Observation {
            station,
            dateutc: None,
            temp,
            wind: Some(Milli { value: wind_mean }),
            wind_direction,
            gust: Some(Milli { value: wind_max }),
            relative_humidity,
            dew_point: None,
            pressure: None,
            precipitation: None,
            uv: None,
        },
    )
}

/// The rounded mean of a bracketed sum: `sum` over `count` values each
/// in the signed 64-bit range.
fn mean_i64(sum: i128, count: u64) -> (r: i64)
    requires
        count > 0,
        count < 0x8000_0000_0000_0000,
        (count as int) * (-0x8000_0000_0000_0000) <= sum as int <= (count as int)
            * 0x7fff_ffff_ffff_ffff,
    ensures
        r as int == round_div(sum as int, count as int),
{
    proof {
        assert(abs_int(sum as int) < 0x4000_0000_0000_0000_0000_0000_0000_0000) by (nonlinear_arith)
            requires
                0 < count < 0x8000_0000_0000_0000 && (count as int) * (-0x8000_0000_0000_0000)
                    <= sum as int <= (count as int) * 0x7fff_ffff_ffff_ffff,
        ;
    }
    let m = round_div_i128(sum, count as u128);
    proof {
        lemma_round_div_range(
            sum as int,
            count as int,
            -0x8000_0000_0000_0000,
            0x7fff_ffff_ffff_ffff,
        );
    }
    m as i64
}

} // verus!
