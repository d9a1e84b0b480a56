//! Station metadata, as exposed by the Windy PWS API.

use vstd::prelude::*;
use crate::json::{
    chars_to_string, dec_u, opt_num_field, push_dec_u64, push_json_string, push_opt_milli,
    push_str_chars, quoted,
};
use crate::measure::Milli;

verus! {

/// Who may see a station's data.
#[derive(Clone, Copy, PartialEq, Eq, Structural, Debug)]
pub enum ShareOption {
    Open,
    OnlyWindy,
    Private,
}

/// The fixed wire name of a share option.
pub open spec fn share_option_chars(s: ShareOption) -> Seq<char> {
    match s {
        ShareOption::Open => "Open"@,
        ShareOption::OnlyWindy => "Only Windy"@,
        ShareOption::Private => "Private"@,
    }
}

/// Site metadata for one station.  Every field but `station` is optional;
/// an absent field is omitted entirely from the wire form.  A station is
/// immutable once constructed: updates build a fresh value.
#[derive(PartialEq, Debug)]
pub struct Station {
    /// Station id.
    pub station: u32,
    /// Who may see the station's data.
    pub share_option: Option<ShareOption>,
    /// Display name.
    pub name: Option<String>,
    /// Latitude in degrees.
    pub latitude: Option<Milli>,
    /// Longitude in degrees.
    pub longitude: Option<Milli>,
    /// Elevation above sea level in meters.
    pub elevation: Option<Milli>,
    /// Mounting height of the temperature instrument in meters.
    pub tempmeter_height: Option<Milli>,
    /// Mounting height of the wind instrument in meters.
    pub windmeter_height: Option<Milli>,
}

/// The mathematical value of a [`Station`]: each measurement a plain
/// count of thousandths, the name a character sequence.
pub struct StationView {
    pub station: u32,
    pub share_option: Option<ShareOption>,
    pub name: Option<Seq<char>>,
    pub latitude: Option<int>,
    pub longitude: Option<int>,
    pub elevation: Option<int>,
    pub tempmeter_height: Option<int>,
    pub windmeter_height: Option<int>,
}

/// The mathematical value of an optional measurement.
pub open spec fn opt_milli_view(v: Option<Milli>) -> Option<int> {
    match v {
        Option::Some(m) => Option::Some(m@),
        Option::None => Option::None,
    }
}

impl View for Station {
    type V = StationView;

    open spec fn view(&self) -> StationView {
        StationView {
            station: self.station,
            share_option: self.share_option,
            name: match self.name {
                Option::Some(n) => Option::Some(n@),
                Option::None => Option::None,
            },
            latitude: opt_milli_view(self.latitude),
            longitude: opt_milli_view(self.longitude),
            elevation: opt_milli_view(self.elevation),
            tempmeter_height: opt_milli_view(self.tempmeter_height),
            windmeter_height: opt_milli_view(self.windmeter_height),
        }
    }
}

impl Clone for Station {
    /// A clone carries the same mathematical value.
    fn clone(&self) -> (r: Station)
        ensures
            r@ == self@,
    {
        Station {
            station: self.station,
            share_option: self.share_option,
            name: match &self.name {
                Option::Some(n) => Option::Some(n.clone()),
                Option::None => Option::None,
            },
            latitude: self.latitude,
            longitude: self.longitude,
            elevation: self.elevation,
            tempmeter_height: self.tempmeter_height,
            windmeter_height: self.windmeter_height,
        }
    }
}

/// The JSON wire form of a station: the required `station` field first,
/// then each optional field in declaration order, present fields only,
/// under the fixed wire names of the remote API.
#[verifier::opaque]
pub open spec fn station_json(st: StationView) -> Seq<char> {
    "{\"station\":"@ + dec_u(st.station as nat) + (match st.share_option {
        Option::Some(s) => ",\"shareOption\":\""@ + share_option_chars(s) + "\""@,
        Option::None => Seq::<char>::empty(),
    }) + (match st.name {
        Option::Some(n) => ",\"name\":"@ + quoted(n),
        Option::None => Seq::<char>::empty(),
    }) + opt_num_field(",\"latitude\":"@, st.latitude) + opt_num_field(
        ",\"longitude\":"@,
        st.longitude,
    ) + opt_num_field(",\"elevation\":"@, st.elevation) + opt_num_field(
        ",\"tempheight\":"@,
        st.tempmeter_height,
    ) + opt_num_field(",\"windheight\":"@, st.windmeter_height) + "}"@
}

/// With every optional field unset, a station renders as a JSON object
/// holding only the required station field: no key is emitted for an
/// absent field, and never a `null`.
pub proof fn lemma_unset_station_json(st: StationView)
    requires
        st.share_option is None,
        st.name is None,
        st.latitude is None,
        st.longitude is None,
        st.elevation is None,
        st.tempmeter_height is None,
        st.windmeter_height is None,
    ensures
        station_json(st) == "{\"station\":"@ + dec_u(st.station as nat) + "}"@,
{
    reveal(station_json);
    broadcast use crate::json::lemma_concat_assoc;
    broadcast use crate::json::lemma_concat_empty;

    assert(station_json(st) == "{\"station\":"@ + dec_u(st.station as nat) + "}"@);
}

impl Station {
    /// A station with the given id and every optional field unset.
    /// Construction always succeeds.
    pub fn new(station: u32) -> (r: Station)
        ensures
            r@ == (StationView {
                station,
                share_option: None,
                name: None,
                latitude: None,
                longitude: None,
                elevation: None,
                tempmeter_height: None,
                windmeter_height: None,
            }),
    {
        Station {
            station,
            share_option: None,
            name: None,
            latitude: None,
            longitude: None,
            elevation: None,
            tempmeter_height: None,
            windmeter_height: None,
        }
    }

    /// Appends the JSON wire form of this station.
    #[verifier::rlimit(50)]
    pub(crate) fn push_json(&self, out: &mut Vec<char>)
        ensures
            final(out)@ == old(out)@ + station_json(self@),
    {
        push_str_chars(out, "{\"station\":");
        push_dec_u64(out, self.station as u64);
        match &self.share_option {
            Option::Some(s) => {
                push_str_chars(out, ",\"shareOption\":\"");
                match s {
                    ShareOption::Open => push_str_chars(out, "Open"),
                    ShareOption::OnlyWindy => push_str_chars(out, "Only Windy"),
                    ShareOption::Private => push_str_chars(out, "Private"),
                }
                push_str_chars(out, "\"");
            },
            Option::None => {},
        }
        match &self.name {
            Option::Some(n) => {
                push_str_chars(out, ",\"name\":");
                push_json_string(out, n.as_str());
            },
            Option::None => {},
        }
        push_opt_milli(out, ",\"latitude\":", &self.latitude);
        push_opt_milli(out, ",\"longitude\":", &self.longitude);
        push_opt_milli(out, ",\"elevation\":", &self.elevation);
        push_opt_milli(out, ",\"tempheight\":", &self.tempmeter_height);
        push_opt_milli(out, ",\"windheight\":", &self.windmeter_height);
        push_str_chars(out, "}");
        proof {
            broadcast use crate::json::lemma_concat_assoc;

            reveal(station_json);
            assert(out@ =~= old(out)@ + station_json(self@));
        }
    }

    /// The JSON wire form of this station alone.
    pub fn to_json(&self) -> (s: String)
        ensures
            s@ == station_json(self@),
    {
        let mut out: Vec<char> = Vec::new();
        self.push_json(&mut out);
        proof {
            assert(out@ =~= station_json(self@));
        }
        chars_to_string(&out)
    }
}

} // verus!
