//! Request assembly.
//!
//! A [`WindyRequestBuilder`] is a mutable accumulator: add operations
//! append entities (never overwrite), creating each sequence lazily on
//! first add, and [`WindyRequestBuilder::build`] takes an immutable
//! [`WindyRequest`] snapshot holding independent copies of the current
//! sequences.  The accumulator itself stays usable and cloneable, so a
//! long-running uploader can assemble a batch incrementally and snapshot
//! it atomically at flush time.

use vstd::prelude::*;
use crate::json::{chars_to_string, push_char, push_str_chars};
use crate::observation::{Observation, observation_json};
use crate::station::{Station, StationView, station_json};

verus! {

/// The mathematical value of a request or of an accumulator: the two
/// possibly-absent entity sequences.  Absent and empty are distinct: an
/// absent sequence is omitted from the wire form entirely.
#[verifier::ext_equal]
pub struct RequestView {
    pub stations: Option<Seq<StationView>>,
    pub observations: Option<Seq<Observation>>,
}

/// The views of the stations in a sequence, in order.
pub open spec fn station_views(v: Seq<Station>) -> Seq<StationView> {
    v.map_values(|s: Station| s@)
}

/// The view of a possibly-absent station vector.
pub open spec fn stations_view(v: Option<Vec<Station>>) -> Option<Seq<StationView>> {
    match v {
        Option::Some(vec) => Option::Some(station_views(vec@)),
        Option::None => Option::None,
    }
}

/// The view of a possibly-absent observation vector.
pub open spec fn observations_view(v: Option<Vec<Observation>>) -> Option<Seq<Observation>> {
    match v {
        Option::Some(vec) => Option::Some(vec@),
        Option::None => Option::None,
    }
}

/// The sequence a possibly-absent sequence stands for: absent counts as
/// empty when appending.
pub open spec fn seq_or_empty<T>(o: Option<Seq<T>>) -> Seq<T> {
    match o {
        Option::Some(s) => s,
        Option::None => Seq::empty(),
    }
}

/// A single request to the Windy PWS API: an immutable snapshot of the
/// stations and observations to upload.  Either sequence may be absent;
/// a request with neither is legal and semantically a no-op.
pub struct WindyRequest {
    pub stations: Option<Vec<Station>>,
    pub observations: Option<Vec<Observation>>,
}

impl View for WindyRequest {
    type V = RequestView;

    open spec fn view(&self) -> RequestView {
        RequestView {
            stations: stations_view(self.stations),
            observations: observations_view(self.observations),
        }
    }
}

/// The bodies of the station array, comma-separated, in order.
pub open spec fn stations_items(s: Seq<StationView>) -> Seq<char>
    decreases s.len(),
{
    if s.len() == 0 {
        Seq::empty()
    } else if s.len() == 1 {
        station_json(s[0])
    } else {
        stations_items(s.drop_last()) + seq![','] + station_json(s.last())
    }
}

/// The bodies of the observation array, comma-separated, in order.
pub open spec fn observations_items(s: Seq<Observation>) -> Seq<char>
    decreases s.len(),
{
    if s.len() == 0 {
        Seq::empty()
    } else if s.len() == 1 {
        observation_json(s[0])
    } else {
        observations_items(s.drop_last()) + seq![','] + observation_json(s.last())
    }
}

/// The JSON wire form of a request: the `stations` array, then the
/// `observations` array, each omitted entirely when absent, so a request
/// with neither renders as `{}`.
pub open spec fn request_json(r: RequestView) -> Seq<char> {
    let stations_part = match r.stations {
        Option::Some(s) => "\"stations\":["@ + stations_items(s) + "]"@,
        Option::None => Seq::<char>::empty(),
    };
    let observations_part = match r.observations {
        Option::Some(s) => "\"observations\":["@ + observations_items(s) + "]"@,
        Option::None => Seq::<char>::empty(),
    };
    let sep: Seq<char> = if r.stations is Some && r.observations is Some {
        seq![',']
    } else {
        Seq::empty()
    };
    "{"@ + stations_part + sep + observations_part + "}"@
}

/// Mapping to views commutes with appending one station.
proof fn lemma_station_views_push(s: Seq<Station>, st: Station)
    ensures
        station_views(s.push(st)) == station_views(s).push(st@),
{
    let a = station_views(s.push(st));
    let b = station_views(s).push(st@);
    assert forall|k: int| 0 <= k < a.len() implies a[k] == b[k] by {
        if k < s.len() {
            assert(a[k] == s[k]@);
            assert(b[k] == s[k]@);
        } else {
            assert(a[k] == st@);
        }
    }
    assert(a =~= b);
}

/// Appends the rendered `stations` array, label included.
fn push_stations_array(out: &mut Vec<char>, v: &Vec<Station>)
    ensures
        final(out)@ == old(out)@ + "\"stations\":["@ + stations_items(station_views(v@)) + "]"@,
{
    push_str_chars(out, "\"stations\":[");
    let ghost pre = out@;
    let ghost sv = station_views(v@);
    let mut i: usize = 0;
    while i < v.len()
        invariant
            i <= v.len(),
            sv == station_views(v@),
            pre == old(out)@ + "\"stations\":["@,
            out@ == pre + stations_items(sv.take(i as int)),
        decreases v.len() - i,
    {
        if i > 0 {
            push_char(out, ',');
        }
        v[i].push_json(out);
        proof {
            broadcast use crate::json::lemma_concat_assoc;

            assert(sv[i as int] == v@[i as int]@);
            assert(sv.take(i as int + 1).drop_last() =~= sv.take(i as int));
            assert(sv.take(i as int + 1).last() == sv[i as int]);
            if i == 0 {
                assert(stations_items(sv.take(1)) == station_json(sv[0]));
            } else {
                assert(stations_items(sv.take(i as int + 1)) == stations_items(sv.take(i as int))
                    + seq![','] + station_json(sv[i as int]));
            }
            assert(out@ == pre + stations_items(sv.take(i as int + 1)));
        }
        i += 1;
    }
    push_str_chars(out, "]");
    proof {
        broadcast use crate::json::lemma_concat_assoc;

        assert(sv.take(v@.len() as int) =~= sv);
        assert(out@ == old(out)@ + "\"stations\":["@ + stations_items(sv) + "]"@);
    }
}

/// Appends the rendered `observations` array, label included.
fn push_observations_array(out: &mut Vec<char>, v: &Vec<Observation>)
    ensures
        final(out)@ == old(out)@ + "\"observations\":["@ + observations_items(v@) + "]"@,
{
    push_str_chars(out, "\"observations\":[");
    let ghost pre = out@;
    let mut i: usize = 0;
    while i < v.len()
        invariant
            i <= v.len(),
            pre == old(out)@ + "\"observations\":["@,
            out@ == pre + observations_items(v@.take(i as int)),
        decreases v.len() - i,
    {
        if i > 0 {
            push_char(out, ',');
        }
        v[i].push_json(out);
        proof {
            broadcast use crate::json::lemma_concat_assoc;

            assert(v@.take(i as int + 1).drop_last() =~= v@.take(i as int));
            assert(v@.take(i as int + 1).last() == v@[i as int]);
            if i == 0 {
                assert(observations_items(v@.take(1)) == observation_json(v@[0]));
            } else {
                assert(observations_items(v@.take(i as int + 1)) == observations_items(
                    v@.take(i as int),
                ) + seq![','] + observation_json(v@[i as int]));
            }
            assert(out@ == pre + observations_items(v@.take(i as int + 1)));
        }
        i += 1;
    }
    push_str_chars(out, "]");
    proof {
        broadcast use crate::json::lemma_concat_assoc;

        assert(v@.take(v@.len() as int) =~= v@);
        assert(out@ == old(out)@ + "\"observations\":["@ + observations_items(v@) + "]"@);
    }
}

/// A request with nothing added renders as the empty JSON object: both
/// absent sequences are omitted entirely.
pub proof fn lemma_empty_request_json(r: RequestView)
    requires
        r.stations is None,
        r.observations is None,
    ensures
        request_json(r) == "{}"@,
{
    reveal_strlit("{");
    reveal_strlit("}");
    reveal_strlit("{}");
    broadcast use crate::json::lemma_concat_empty;

    assert(request_json(r) =~= "{}"@);
}

impl WindyRequest {
    /// The JSON wire form of this request.
    #[verifier::rlimit(100)]
    pub fn to_json(&self) -> (s: String)
        ensures
            s@ == request_json(self@),
    {
        let mut out: Vec<char> = Vec::new();
        push_str_chars(&mut out, "{");
        match &self.stations {
            Option::Some(v) => {
                push_stations_array(&mut out, v);
            },
            Option::None => {},
        }
        match &self.observations {
            Option::Some(v) => {
                if self.stations.is_some() {
                    push_char(&mut out, ',');
                }
                push_observations_array(&mut out, v);
            },
            Option::None => {},
        }
        push_str_chars(&mut out, "}");
        proof {
            broadcast use crate::json::lemma_concat_assoc;

            assert(out@ == request_json(self@));
        }
        chars_to_string(&out)
    }
}

/// Clones a possibly-absent station vector, element by element, keeping
/// the mathematical value.
fn clone_stations(v: &Option<Vec<Station>>) -> (r: Option<Vec<Station>>)
    ensures
        stations_view(r) == stations_view(*v),
{
    match v {
        Option::Some(vec) => {
            let mut out: Vec<Station> = Vec::new();
            let mut i: usize = 0;
            while i < vec.len()
                invariant
                    i <= vec.len(),
                    station_views(out@) == station_views(vec@).take(i as int),
                decreases vec.len() - i,
            {
                let c = vec[i].clone();
                let ghost prev = out@;
                out.push(c);
                proof {
                    lemma_station_views_push(prev, c);
                    assert(station_views(vec@)[i as int] == vec@[i as int]@);
                    assert(station_views(vec@).take(i as int + 1) =~= station_views(vec@).take(
                        i as int,
                    ).push(station_views(vec@)[i as int]));
                    assert(station_views(out@) == station_views(vec@).take(i as int + 1));
                }
                i += 1;
            }
            proof {
                assert(station_views(vec@).take(vec@.len() as int) =~= station_views(vec@));
            }
            Option::Some(out)
        },
        Option::None => Option::None,
    }
}

/// Clones a possibly-absent observation vector.
fn clone_observations(v: &Option<Vec<Observation>>) -> (r: Option<Vec<Observation>>)
    ensures
        observations_view(r) == observations_view(*v),
{
    match v {
        Option::Some(vec) => {
            let mut out: Vec<Observation> = Vec::new();
            let mut i: usize = 0;
            while i < vec.len()
                invariant
                    i <= vec.len(),
                    out@ == vec@.take(i as int),
                decreases vec.len() - i,
            {
                out.push(vec[i]);
                proof {
                    assert(out@ =~= vec@.take(i as int + 1));
                }
                i += 1;
            }
            proof {
                assert(vec@.take(vec@.len() as int) =~= vec@);
            }
            Option::Some(out)
        },
        Option::None => Option::None,
    }
}

/// One mutation of an accumulator, as a mathematical value.
pub enum AddOp {
    AddStation(StationView),
    AddObservation(Observation),
    AddStations(Seq<StationView>),
    AddObservations(Seq<Observation>),
}

/// The accumulator state that one add operation produces: it appends to
/// the sequence it concerns, creating it when absent, and leaves the
/// other sequence alone.
pub open spec fn apply_add(s: RequestView, op: AddOp) -> RequestView {
    match op {
        AddOp::AddStation(st) => RequestView {
            stations: Option::Some(seq_or_empty(s.stations).push(st)),
            observations: s.observations,
        },
        AddOp::AddObservation(o) => RequestView {
            stations: s.stations,
            observations: Option::Some(seq_or_empty(s.observations).push(o)),
        },
        AddOp::AddStations(sts) => RequestView {
            stations: Option::Some(seq_or_empty(s.stations) + sts),
            observations: s.observations,
        },
        AddOp::AddObservations(os) => RequestView {
            stations: s.stations,
            observations: Option::Some(seq_or_empty(s.observations) + os),
        },
    }
}

/// The accumulator state that a whole sequence of add operations
/// produces, applied in order.
pub open spec fn apply_adds(s: RequestView, ops: Seq<AddOp>) -> RequestView
    decreases ops.len(),
{
    if ops.len() == 0 {
        s
    } else {
        apply_add(apply_adds(s, ops.drop_last()), ops.last())
    }
}

/// All stations the operations add, in order.
pub open spec fn added_stations(ops: Seq<AddOp>) -> Seq<StationView>
    decreases ops.len(),
{
    if ops.len() == 0 {
        Seq::empty()
    } else {
        added_stations(ops.drop_last()) + (match ops.last() {
            AddOp::AddStation(st) => seq![st],
            AddOp::AddStations(sts) => sts,
            _ => Seq::<StationView>::empty(),
        })
    }
}

/// All observations the operations add, in order.
pub open spec fn added_observations(ops: Seq<AddOp>) -> Seq<Observation>
    decreases ops.len(),
{
    if ops.len() == 0 {
        Seq::empty()
    } else {
        added_observations(ops.drop_last()) + (match ops.last() {
            AddOp::AddObservation(o) => seq![o],
            AddOp::AddObservations(os) => os,
            _ => Seq::<Observation>::empty(),
        })
    }
}

/// Append, never overwrite: starting from the empty accumulator, any
/// sequence of add operations leaves exactly the concatenation of
/// everything added, in order, for both entity kinds.  Each exec mutator
/// of [`WindyRequestBuilder`] realizes [`apply_add`] on the view, and
/// [`WindyRequestBuilder::build`] keeps the view, so this law carries to
/// every built request.
pub proof fn lemma_adds_concatenate(ops: Seq<AddOp>)
    ensures
        seq_or_empty(
            apply_adds(RequestView { stations: None, observations: None }, ops).stations,
        ) == added_stations(ops),
        seq_or_empty(
            apply_adds(RequestView { stations: None, observations: None }, ops).observations,
        ) == added_observations(ops),
    decreases ops.len(),
{
    let init = RequestView { stations: None, observations: None };
    if ops.len() == 0 {
        assert(seq_or_empty(apply_adds(init, ops).stations) =~= added_stations(ops));
        assert(seq_or_empty(apply_adds(init, ops).observations) =~= added_observations(ops));
    } else {
        lemma_adds_concatenate(ops.drop_last());
        match ops.last() {
            AddOp::AddStation(st) => {
                assert(seq_or_empty(apply_adds(init, ops).stations) =~= added_stations(ops));
                assert(seq_or_empty(apply_adds(init, ops).observations) =~= added_observations(
                    ops,
                ));
            },
            AddOp::AddObservation(o) => {
                assert(seq_or_empty(apply_adds(init, ops).stations) =~= added_stations(ops));
                assert(seq_or_empty(apply_adds(init, ops).observations) =~= added_observations(
                    ops,
                ));
            },
            AddOp::AddStations(sts) => {
                assert(seq_or_empty(apply_adds(init, ops).stations) =~= added_stations(ops));
                assert(seq_or_empty(apply_adds(init, ops).observations) =~= added_observations(
                    ops,
                ));
            },
            AddOp::AddObservations(os) => {
                assert(seq_or_empty(apply_adds(init, ops).stations) =~= added_stations(ops));
                assert(seq_or_empty(apply_adds(init, ops).observations) =~= added_observations(
                    ops,
                ));
            },
        }
    }
}

/// A mutable accumulator for assembling a [`WindyRequest`].
pub struct WindyRequestBuilder {
    pub stations: Option<Vec<Station>>,
    pub observations: Option<Vec<Observation>>,
}

impl View for WindyRequestBuilder {
    type V = RequestView;

    open spec fn view(&self) -> RequestView {
        RequestView {
            stations: stations_view(self.stations),
            observations: observations_view(self.observations),
        }
    }
}

impl Default for WindyRequestBuilder {
    /// The empty accumulator: both sequences absent.
    fn default() -> (r: WindyRequestBuilder)
        ensures
            r@ == (RequestView { stations: None, observations: None }),
    {
        WindyRequestBuilder { stations: None, observations: None }
    }
}

impl Clone for WindyRequestBuilder {
    /// A clone carries the same mathematical value; afterwards either
    /// side can be mutated without affecting the other.
    fn clone(&self) -> (r: WindyRequestBuilder)
        ensures
            r@ == self@,
    {
        WindyRequestBuilder {
            stations: clone_stations(&self.stations),
            observations: clone_observations(&self.observations),
        }
    }
}

impl WindyRequestBuilder {
    /// An accumulator holding one observation.
    pub fn from_observation(observation: Observation) -> (r: Self)
        ensures
            r@ == apply_adds(
                RequestView { stations: None, observations: None },
                seq![AddOp::AddObservation(observation)],
            ),
    {
        let mut b = WindyRequestBuilder::default();
        b.observation(observation);
        proof {
            lemma_apply_one(AddOp::AddObservation(observation));
        }
        b
    }

    /// An accumulator holding a whole observation sequence.
    pub fn from_observations(observations: Vec<Observation>) -> (r: Self)
        ensures
            r@ == apply_adds(
                RequestView { stations: None, observations: None },
                seq![AddOp::AddObservations(observations@)],
            ),
    {
        let mut b = WindyRequestBuilder::default();
        b.observations(observations);
        proof {
            lemma_apply_one(AddOp::AddObservations(observations@));
        }
        b
    }

    /// An accumulator holding one station.
    pub fn from_station(station: Station) -> (r: Self)
        ensures
            r@ == apply_adds(
                RequestView { stations: None, observations: None },
                seq![AddOp::AddStation(station@)],
            ),
    {
        let mut b = WindyRequestBuilder::default();
        b.station(station);
        proof {
            lemma_apply_one(AddOp::AddStation(station@));
        }
        b
    }

    /// An accumulator holding a whole station sequence.
    pub fn from_stations(stations: Vec<Station>) -> (r: Self)
        ensures
            r@ == apply_adds(
                RequestView { stations: None, observations: None },
                seq![AddOp::AddStations(station_views(stations@))],
            ),
    {
        let ghost sv = station_views(stations@);
        let mut b = WindyRequestBuilder::default();
        b.stations(stations);
        proof {
            lemma_apply_one(AddOp::AddStations(sv));
        }
        b
    }

    /// An accumulator holding one station and one observation.
    pub fn from_station_observation(station: Station, observation: Observation) -> (r: Self)
        ensures
            r@ == apply_adds(
                RequestView { stations: None, observations: None },
                seq![AddOp::AddStation(station@), AddOp::AddObservation(observation)],
            ),
    {
        let ghost ops = seq![AddOp::AddStation(station@), AddOp::AddObservation(observation)];
        let mut b = WindyRequestBuilder::default();
        b.station(station);
        b.observation(observation);
        proof {
            lemma_apply_two(AddOp::AddStation(station@), AddOp::AddObservation(observation));
        }
        b
    }

    /// An accumulator holding a station sequence and an observation
    /// sequence.
    pub fn from_stations_observations(stations: Vec<Station>, observations: Vec<Observation>) -> (r:
        Self)
        ensures
            r@ == apply_adds(
                RequestView { stations: None, observations: None },
                seq![
                    AddOp::AddStations(station_views(stations@)),
                    AddOp::AddObservations(observations@),
                ],
            ),
    {
        let ghost sv = station_views(stations@);
        let mut b = WindyRequestBuilder::default();
        b.stations(stations);
        b.observations(observations);
        proof {
            lemma_apply_two(AddOp::AddStations(sv), AddOp::AddObservations(observations@));
        }
        b
    }

    /// Appends one observation, creating the sequence on first add.
    pub fn observation(&mut self, observation: Observation)
        ensures
            final(self)@ == apply_add(old(self)@, AddOp::AddObservation(observation)),
    {
        let mut cur: Option<Vec<Observation>> = None;
        core::mem::swap(&mut cur, &mut self.observations);
        match cur {
            Option::Some(mut v) => {
                v.push(observation);
                self.observations = Some(v);
            },
            Option::None => {
                let mut v: Vec<Observation> = Vec::new();
                v.push(observation);
                self.observations = Some(v);
            },
        }
        proof {
            assert(seq_or_empty(self@.observations) =~= seq_or_empty(old(self)@.observations).push(
                observation,
            ));
            assert(self@ =~= apply_add(old(self)@, AddOp::AddObservation(observation)));
        }
    }

    /// Appends one station, creating the sequence on first add.
    pub fn station(&mut self, station: Station)
        ensures
            final(self)@ == apply_add(old(self)@, AddOp::AddStation(station@)),
    {
        let mut cur: Option<Vec<Station>> = None;
        core::mem::swap(&mut cur, &mut self.stations);
        match cur {
            Option::Some(mut v) => {
                v.push(station);
                self.stations = Some(v);
            },
            Option::None => {
                let mut v: Vec<Station> = Vec::new();
                v.push(station);
                self.stations = Some(v);
            },
        }
        proof {
            assert(seq_or_empty(self@.stations) =~= seq_or_empty(old(self)@.stations).push(
                station@,
            ));
            assert(self@ =~= apply_add(old(self)@, AddOp::AddStation(station@)));
        }
    }

    /// Appends a whole station sequence, preserving relative order,
    /// creating the sequence on first add rather than overwriting.
    pub fn stations(&mut self, stations_new: Vec<Station>)
        ensures
            final(self)@ == apply_add(old(self)@, AddOp::AddStations(station_views(stations_new@))),
    {
        let ghost sv = station_views(stations_new@);
        let mut cur: Option<Vec<Station>> = None;
        core::mem::swap(&mut cur, &mut self.stations);
        match cur {
            Option::Some(mut v) => {
                let mut n = stations_new;
                v.append(&mut n);
                self.stations = Some(v);
            },
            Option::None => {
                self.stations = Some(stations_new);
            },
        }
        proof {
            assert(seq_or_empty(self@.stations) =~= seq_or_empty(old(self)@.stations) + sv);
            assert(self@ =~= apply_add(old(self)@, AddOp::AddStations(sv)));
        }
    }

    /// Appends a whole observation sequence, preserving relative order,
    /// creating the sequence on first add rather than overwriting.
    pub fn observations(&mut self, observations_new: Vec<Observation>)
        ensures
            final(self)@ == apply_add(old(self)@, AddOp::AddObservations(observations_new@)),
    {
        let ghost ov = observations_new@;
        let mut cur: Option<Vec<Observation>> = None;
        core::mem::swap(&mut cur, &mut self.observations);
        match cur {
            Option::Some(mut v) => {
                let mut n = observations_new;
                v.append(&mut n);
                self.observations = Some(v);
            },
            Option::None => {
                self.observations = Some(observations_new);
            },
        }
        proof {
            assert(seq_or_empty(self@.observations) =~= seq_or_empty(old(self)@.observations) + ov);
            assert(self@ =~= apply_add(old(self)@, AddOp::AddObservations(ov)));
        }
    }

    /// An immutable snapshot of the current accumulator state, holding
    /// independent copies of the sequences.  Pure: the accumulator is
    /// unchanged, and building twice with no intervening mutation yields
    /// requests with the same mathematical value.
    pub fn build(&self) -> (r: WindyRequest)
        ensures
            r@ == self@,
    {
        let r = WindyRequest {
            stations: clone_stations(&self.stations),
            observations: clone_observations(&self.observations),
        };
        proof {
            assert(r@ =~= self@);
        }
        r
    }
}

/// Applying a single operation to the empty accumulator.
proof fn lemma_apply_one(op: AddOp)
    ensures
        apply_adds(RequestView { stations: None, observations: None }, seq![op]) == apply_add(
            RequestView { stations: None, observations: None },
            op,
        ),
{
    let init = RequestView { stations: None, observations: None };
    assert(seq![op].drop_last() =~= Seq::<AddOp>::empty());
    assert(apply_adds(init, seq![op].drop_last()) == init);
}

/// Applying two operations in order to the empty accumulator.
proof fn lemma_apply_two(op1: AddOp, op2: AddOp)
    ensures
        apply_adds(RequestView { stations: None, observations: None }, seq![op1, op2])
            == apply_add(
            apply_add(RequestView { stations: None, observations: None }, op1),
            op2,
        ),
{
    let init = RequestView { stations: None, observations: None };
    let ops = seq![op1, op2];
    assert(ops.drop_last() =~= seq![op1]);
    lemma_apply_one(op1);
}

impl WindyRequest {
    /// A request holding one observation.
    pub fn from_observation(observation: Observation) -> (r: Self)
        ensures
            r@ == apply_adds(
                RequestView { stations: None, observations: None },
                seq![AddOp::AddObservation(observation)],
            ),
    {
        WindyRequestBuilder::from_observation(observation).build()
    }

    /// A request holding a whole observation sequence.
    pub fn from_observations(observations: Vec<Observation>) -> (r: Self)
        ensures
            r@ == apply_adds(
                RequestView { stations: None, observations: None },
                seq![AddOp::AddObservations(observations@)],
            ),
    {
        WindyRequestBuilder::from_observations(observations).build()
    }

    /// A request holding one station.
    pub fn from_station(station: Station) -> (r: Self)
        ensures
            r@ == apply_adds(
                RequestView { stations: None, observations: None },
                seq![AddOp::AddStation(station@)],
            ),
    {
        WindyRequestBuilder::from_station(station).build()
    }

    /// A request holding a whole station sequence.
    pub fn from_stations(stations: Vec<Station>) -> (r: Self)
        ensures
            r@ == apply_adds(
                RequestView { stations: None, observations: None },
                seq![AddOp::AddStations(station_views(stations@))],
            ),
    {
        WindyRequestBuilder::from_stations(stations).build()
    }

    /// A request holding one station and one observation.
    pub fn from_station_observation(station: Station, observation: Observation) -> (r: Self)
        ensures
            r@ == apply_adds(
                RequestView { stations: None, observations: None },
                seq![AddOp::AddStation(station@), AddOp::AddObservation(observation)],
            ),
    {
        WindyRequestBuilder::from_station_observation(station, observation).build()
    }

    /// A request holding a station sequence and an observation sequence.
    pub fn from_stations_observationss(
        stations: Vec<Station>,
        observations: Vec<Observation>,
    ) -> (r: Self)
        ensures
            r@ == apply_adds(
                RequestView { stations: None, observations: None },
                seq![
                    AddOp::AddStations(station_views(stations@)),
                    AddOp::AddObservations(observations@),
                ],
            ),
    {
        WindyRequestBuilder::from_stations_observations(stations, observations).build()
    }
}

} // verus!
