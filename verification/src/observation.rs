//! One reduced weather reading, as exposed by the Windy PWS API.

use vstd::prelude::*;
use crate::date::{DateUtc, opt_date_field, push_opt_date};
use crate::json::{
    chars_to_string, dec_u, opt_i32_field, opt_milli_field, push_dec_u64, push_opt_i32,
    push_opt_milli, push_str_chars,
};
use crate::measure::Milli;

verus! {

/// One weather reading for a station.  Every field but `station` is
/// optional; an absent field is omitted entirely from the wire form,
/// never emitted as `null`.  No field is validated for physical
/// plausibility: validation is out of scope for this layer.
#[derive(Clone, Copy, PartialEq, Debug)]
pub struct Observation {
    /// Station id.
    pub station: u32,
    /// Timestamp of the reading, UTC.
    pub dateutc: Option<DateUtc>,
    /// Temperature in degrees Celsius.
    pub temp: Option<Milli>,
    /// Wind speed in meters per second.
    pub wind: Option<Milli>,
    /// Wind direction in degrees.
    pub wind_direction: Option<i32>,
    /// Wind gust speed in meters per second.
    pub gust: Option<Milli>,
    /// Relative humidity in percent.
    pub relative_humidity: Option<Milli>,
    /// Dew point in degrees Celsius.
    pub dew_point: Option<Milli>,
    /// Pressure in pascal.
    pub pressure: Option<Milli>,
    /// Precipitation over the past hour in millimeters.
    pub precipitation: Option<Milli>,
    /// UV index.
    pub uv: Option<i32>,
}

/// The JSON wire form of an observation: the required `station` field
/// first, then each optional field in declaration order, present fields
/// only, under the fixed wire names of the remote API.
#[verifier::opaque]
pub open spec fn observation_json(o: Observation) -> Seq<char> {
    "{\"station\":"@ + dec_u(o.station as nat) + opt_date_field(",\"dateutc\":"@, o.dateutc)
        + opt_milli_field(",\"temp\":"@, o.temp) + opt_milli_field(",\"wind\":"@, o.wind)
        + opt_i32_field(",\"winddir\":"@, o.wind_direction) + opt_milli_field(
        ",\"gust\":"@,
        o.gust,
    ) + opt_milli_field(",\"rh\":"@, o.relative_humidity) + opt_milli_field(
        ",\"dewpoint\":"@,
        o.dew_point,
    ) + opt_milli_field(",\"pressure\":"@, o.pressure) + opt_milli_field(
        ",\"precip\":"@,
        o.precipitation,
    ) + opt_i32_field(",\"uv\":"@, o.uv) + "}"@
}

/// With every optional field unset, an observation renders as a JSON
/// object holding only the required station field: no key is emitted
/// for an absent field, and never a `null`.
pub proof fn lemma_unset_observation_json(o: Observation)
    requires
        o.dateutc is None,
        o.temp is None,
        o.wind is None,
        o.wind_direction is None,
        o.gust is None,
        o.relative_humidity is None,
        o.dew_point is None,
        o.pressure is None,
        o.precipitation is None,
        o.uv is None,
    ensures
        observation_json(o) == "{\"station\":"@ + dec_u(o.station as nat) + "}"@,
{
    reveal(observation_json);
    broadcast use crate::json::lemma_concat_assoc;
    broadcast use crate::json::lemma_concat_empty;

    assert(observation_json(o) == "{\"station\":"@ + dec_u(o.station as nat) + "}"@);
}

impl Observation {
    /// An observation for station `station` with every optional field
    /// unset.  Construction always succeeds.
    pub fn new(station: u32) -> (r: Observation)
        ensures
            r == (Observation {
                station,
                dateutc: None,
                temp: None,
                wind: None,
                wind_direction: None,
                gust: None,
                relative_humidity: None,
                dew_point: None,
                pressure: None,
                precipitation: None,
                uv: None,
            }),
    {
        Observation {
            station,
            dateutc: None,
            temp: None,
            wind: None,
            wind_direction: None,
            gust: None,
            relative_humidity: None,
            dew_point: None,
            pressure: None,
            precipitation: None,
            uv: None,
        }
    }

    /// Appends the JSON wire form of this observation.
    pub(crate) fn push_json(&self, out: &mut Vec<char>)
        ensures
            final(out)@ == old(out)@ + observation_json(*self),
    {
        push_str_chars(out, "{\"station\":");
        push_dec_u64(out, self.station as u64);
        push_opt_date(out, ",\"dateutc\":", &self.dateutc);
        push_opt_milli(out, ",\"temp\":", &self.temp);
        push_opt_milli(out, ",\"wind\":", &self.wind);
        push_opt_i32(out, ",\"winddir\":", &self.wind_direction);
        push_opt_milli(out, ",\"gust\":", &self.gust);
        push_opt_milli(out, ",\"rh\":", &self.relative_humidity);
        push_opt_milli(out, ",\"dewpoint\":", &self.dew_point);
        push_opt_milli(out, ",\"pressure\":", &self.pressure);
        push_opt_milli(out, ",\"precip\":", &self.precipitation);
        push_opt_i32(out, ",\"uv\":", &self.uv);
        push_str_chars(out, "}");
        proof {
            broadcast use crate::json::lemma_concat_assoc;

            reveal(observation_json);
            assert(out@ =~= old(out)@ + observation_json(*self));
        }
    }

    /// The JSON wire form of this observation alone.
    pub fn to_json(&self) -> (s: String)
        ensures
            s@ == observation_json(*self),
    {
        let mut out: Vec<char> = Vec::new();
        self.push_json(&mut out);
        proof {
            assert(out@ =~= observation_json(*self));
        }
        chars_to_string(&out)
    }
}

} // verus!
