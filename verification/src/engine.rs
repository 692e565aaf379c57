//! The correlation engine: maps a live arrival (live route id, live stop
//! id, epoch timestamp) to a scheduled trip instance and stop-time row.
//!
//! Live and static data use independent id namespaces; the engine hops
//! across them by route long name and stop code, then scans the static
//! trips in CSV order for the first trip of the resolved route with a
//! qualifying stop-time: inside the (buffered) validity window for a
//! frequency-based trip, at a nearby stop-time of the resolved stop for
//! a fixed trip. The first match in CSV order wins.

use vstd::prelude::*;

use crate::numbers::{dec_digits, u64_to_string};
use crate::schedule::{
    Arrival, ArrivalV, CSVFrequency, CSVFrequencyV, CSVRouteV, CSVStopV, CSVTrip, CSVTripV,
    Route, RouteV, Schedule, StopTime, StopTimeV, StopV,
};
use crate::time::{arrival_seconds_spec, arrival_service_seconds, day_time_serializer,
    format_day_time};
use crate::util::{find_index, lemma_find_index, lemma_find_index_of};

verus! {

/// How a matched trip relates to the static schedule.
#[derive(Clone, Copy, PartialEq, Eq, Structural, Debug)]
pub enum ScheduleRelationship {
    Scheduled,
}

/// The trip descriptor of a correlated arrival.
pub struct TripDescriptor {
    pub trip_id: Option<String>,
    pub route_id: Option<String>,
    pub direction_id: Option<u32>,
    pub start_time: Option<String>,
    pub start_date: Option<String>,
    pub schedule_relationship: Option<ScheduleRelationship>,
}

pub struct TripDescriptorV {
    pub trip_id: Option<Seq<char>>,
    pub route_id: Option<Seq<char>>,
    pub direction_id: Option<u32>,
    pub start_time: Option<Seq<char>>,
    pub start_date: Option<Seq<char>>,
    pub schedule_relationship: Option<ScheduleRelationship>,
}

impl View for TripDescriptor {
    type V = TripDescriptorV;

    open spec fn view(&self) -> TripDescriptorV {
        TripDescriptorV {
            trip_id: match self.trip_id {
                Some(t) => Some(t@),
                None => None,
            },
            route_id: match self.route_id {
                Some(t) => Some(t@),
                None => None,
            },
            direction_id: self.direction_id,
            start_time: match self.start_time {
                Some(t) => Some(t@),
                None => None,
            },
            start_date: match self.start_date {
                Some(t) => Some(t@),
                None => None,
            },
            schedule_relationship: self.schedule_relationship,
        }
    }
}

impl DeepView for TripDescriptor {
    type V = TripDescriptorV;

    open spec fn deep_view(&self) -> TripDescriptorV {
        self.view()
    }
}

fn clone_opt_string(s: &Option<String>) -> (r: Option<String>)
    ensures
        match r {
            Some(x) => s matches Some(y) && x@ == y@,
            None => s is None,
        },
{
    match s {
        Some(x) => Some(x.clone()),
        None => None,
    }
}

impl Clone for TripDescriptor {
    fn clone(&self) -> (r: Self)
        ensures
            r@ == self@,
    {
        TripDescriptor {
            trip_id: clone_opt_string(&self.trip_id),
            route_id: clone_opt_string(&self.route_id),
            direction_id: self.direction_id,
            start_time: clone_opt_string(&self.start_time),
            start_date: clone_opt_string(&self.start_date),
            schedule_relationship: self.schedule_relationship,
        }
    }
}

/// Index of the first live route with this id.
pub open spec fn route_index(routes: Seq<RouteV>, id: u64) -> Option<int> {
    find_index(routes, |r: RouteV| r.id == id)
}

/// Index of the first static route with this long name.
pub open spec fn csv_route_index(routes: Seq<CSVRouteV>, long_name: Seq<char>) -> Option<int> {
    find_index(routes, |r: CSVRouteV| r.route_long_name == long_name)
}

/// Index of the first stop of a live route's stop list with this id.
pub open spec fn stop_index(stops: Seq<StopV>, id: u64) -> Option<int> {
    find_index(stops, |s: StopV| s.id == id)
}

/// Index of the first static stop with this code.
pub open spec fn csv_stop_index(stops: Seq<CSVStopV>, code: Seq<char>) -> Option<int> {
    find_index(stops, |s: CSVStopV| s.stop_code == code)
}

/// Index of the first frequency row of this trip; a trip indexed here is
/// frequency-based.
pub open spec fn frequency_index(freqs: Seq<CSVFrequencyV>, trip_id: u64) -> Option<int> {
    find_index(freqs, |f: CSVFrequencyV| f.trip_id == trip_id)
}

/// The static (route id, stop id) an arrival resolves to across the
/// namespace join, if every link holds: live route id to live route, its
/// long name to a static route, the arrival's stop id to a stop of the
/// live route, and that stop's code to a static stop.
pub open spec fn resolved_ids(s: &Schedule, a: ArrivalV) -> Option<(u64, u64)> {
    match route_index(s.routes.deep_view(), a.route_id) {
        None => None,
        Some(ri) => {
            let route = s.routes.deep_view()[ri];
            match csv_route_index(s.csv_routes.deep_view(), route.long_name) {
                None => None,
                Some(cri) => match stop_index(route.stops, a.stop_id) {
                    None => None,
                    Some(sti) => match csv_stop_index(
                        s.csv_stops.deep_view(),
                        route.stops[sti].code,
                    ) {
                        None => None,
                        Some(csi) => Some(
                            (s.csv_routes.deep_view()[cri].route_id, s.csv_stops.deep_view()[csi].stop_id),
                        ),
                    },
                },
            }
        },
    }
}

/// The window-with-buffer gate of the frequency branch: the arrival lies
/// within the frequency's validity window, widened by ten minutes on
/// each side.
pub open spec fn within_buffer_spec(start_secs: u64, now: u64, end_secs: u64) -> bool {
    start_secs - 600 < now && now < end_secs + 600
}

/// Whether `now` lies in the ten-minute-buffered window.
pub fn within_buffer(start_secs: u64, now: u64, end_secs: u64) -> (r: bool)
    ensures
        r == within_buffer_spec(start_secs, now, end_secs),
{
    (start_secs as u128) < (now as u128) + 600 && (now as u128) < (end_secs as u128) + 600
}

/// The nearby gate of the fixed branch: the arrival lies within ten
/// minutes of the scheduled time, on either side.
pub open spec fn nearby_spec(real_time: u64, seconds: u64) -> bool {
    real_time - seconds < 600 && seconds - real_time < 600
}

/// Whether a live arrival time is within ten minutes of a scheduled
/// day-time (given with its raw text).
pub fn nearby(real_time: u64, seconds: (String, u64)) -> (r: bool)
    ensures
        r == nearby_spec(real_time, seconds.1),
{
    let s = seconds.1;
    (real_time as u128) < (s as u128) + 600 && (s as u128) < (real_time as u128) + 600
}

/// Whether a stop-time row qualifies for a trip of the resolved route:
/// it must belong to the trip; then, for a frequency-based trip, the
/// arrival must lie in the buffered window (the row's own stop is not
/// consulted); for a fixed trip, the row must be at the resolved stop
/// and nearby the arrival.
pub open spec fn stop_time_qualifies(
    s: &Schedule,
    trip: CSVTripV,
    st: StopTimeV,
    static_stop_id: u64,
    arr: u64,
) -> bool {
    st.trip_id == trip.trip_id && match frequency_index(
        s.csv_frequencies.deep_view(),
        trip.trip_id,
    ) {
        Some(fi) => {
            let f = s.csv_frequencies.deep_view()[fi];
            within_buffer_spec(f.start_time.1, arr, f.end_time.1)
        },
        None => st.stop_id == static_stop_id && nearby_spec(arr, st.arrival_time.1),
    }
}

/// Index of the first qualifying stop-time row for a trip, in CSV order.
pub open spec fn stop_time_match_index(
    s: &Schedule,
    trip: CSVTripV,
    static_stop_id: u64,
    arr: u64,
) -> Option<int> {
    find_index(
        s.csv_stop_times.deep_view(),
        |st: StopTimeV| stop_time_qualifies(s, trip, st, static_stop_id, arr),
    )
}

/// The first (trip, stop-time) match at or after trip index `ti`, in CSV
/// order: trips of the resolved route in order, each scanning all
/// stop-times in order.
pub open spec fn first_pair_from(s: &Schedule, rid: u64, sid: u64, arr: u64, ti: int) -> Option<
    (int, int),
>
    decreases s.csv_trips.deep_view().len() - ti,
{
    let trips = s.csv_trips.deep_view();
    if ti < 0 || ti >= trips.len() {
        None
    } else if trips[ti].route_id == rid {
        match stop_time_match_index(s, trips[ti], sid, arr) {
            Some(si) => Some((ti, si)),
            None => first_pair_from(s, rid, sid, arr, ti + 1),
        }
    } else {
        first_pair_from(s, rid, sid, arr, ti + 1)
    }
}

/// Whether the pair (`ti`, `si`) comes before (`ti2`, `si2`) in scan
/// order: trips in CSV order first, stop-times in CSV order within a
/// trip.
pub open spec fn scan_before(ti: int, si: int, ti2: int, si2: int) -> bool {
    ti < ti2 || (ti == ti2 && si < si2)
}

/// The first-match policy of the scan: the pair it yields qualifies, its
/// trip serves the resolved route, and no pair earlier in scan order
/// qualifies; when it yields nothing, no pair at all qualifies.
pub proof fn lemma_first_pair_is_first(s: &Schedule, rid: u64, sid: u64, arr: u64, k: int)
    requires
        0 <= k,
    ensures
        ({
            let trips = s.csv_trips.deep_view();
            let sts = s.csv_stop_times.deep_view();
            match first_pair_from(s, rid, sid, arr, k) {
                Some(pair) => {
                    &&& k <= pair.0 < trips.len()
                    &&& 0 <= pair.1 < sts.len()
                    &&& trips[pair.0].route_id == rid
                    &&& stop_time_qualifies(s, trips[pair.0], sts[pair.1], sid, arr)
                    &&& forall|ti: int, si: int|
                        #![trigger trips[ti], sts[si]]
                        k <= ti < trips.len() && 0 <= si < sts.len() && scan_before(
                            ti,
                            si,
                            pair.0,
                            pair.1,
                        ) && trips[ti].route_id == rid ==> !stop_time_qualifies(
                            s,
                            trips[ti],
                            sts[si],
                            sid,
                            arr,
                        )
                },
                None => forall|ti: int, si: int|
                    #![trigger trips[ti], sts[si]]
                    k <= ti < trips.len() && 0 <= si < sts.len() && trips[ti].route_id == rid
                        ==> !stop_time_qualifies(s, trips[ti], sts[si], sid, arr),
            }
        }),
    decreases s.csv_trips.deep_view().len() - k,
{
    let trips = s.csv_trips.deep_view();
    let sts = s.csv_stop_times.deep_view();
    if k < trips.len() {
        let p = |st: StopTimeV| stop_time_qualifies(s, trips[k], st, sid, arr);
        if trips[k].route_id == rid {
            lemma_find_index(sts, p);
            match stop_time_match_index(s, trips[k], sid, arr) {
                Some(si) => {},
                None => {
                    lemma_first_pair_is_first(s, rid, sid, arr, k + 1);
                },
            }
        } else {
            lemma_first_pair_is_first(s, rid, sid, arr, k + 1);
        }
    }
}

/// The trip iteration a frequency-based arrival falls on: the arrival's
/// offset from the row's scheduled time in headways, rounded half away
/// from zero, never negative.
pub open spec fn trip_iteration(arr: int, st_arr: int, h: int) -> int {
    if 2 * (arr - st_arr) < h {
        0
    } else {
        (2 * (arr - st_arr) + h) / (2 * h)
    }
}

/// The synthesized start time of the matched trip instance: the window's
/// start plus the iteration's headways. (With a zero headway only the
/// window's start remains, whatever the offset.)
pub open spec fn frequency_start_secs(f: CSVFrequencyV, st: StopTimeV, arr: u64) -> int {
    if f.headway_secs == 0 {
        f.start_time.1 as int
    } else {
        f.start_time.1 + f.headway_secs * trip_iteration(
            arr as int,
            st.arrival_time.1 as int,
            f.headway_secs as int,
        )
    }
}

/// The descriptor of a frequency-based match. In workaround mode the
/// start time is encoded into the trip id and the start-time field stays
/// empty; otherwise the trip id is bare and the start time is formatted.
pub open spec fn frequency_descriptor(
    trip_id: u64,
    route_id: u64,
    start_secs: int,
    workaround: bool,
) -> TripDescriptorV {
    TripDescriptorV {
        trip_id: Some(
            if workaround {
                dec_digits(trip_id as int) + seq!['_'] + dec_digits(start_secs)
            } else {
                dec_digits(trip_id as int)
            },
        ),
        route_id: Some(dec_digits(route_id as int)),
        direction_id: None,
        start_time: if workaround {
            None
        } else {
            Some(format_day_time(start_secs))
        },
        start_date: None,
        schedule_relationship: Some(ScheduleRelationship::Scheduled),
    }
}

/// The descriptor of a fixed-trip match: the bare ids, nothing else.
pub open spec fn fixed_descriptor(trip_id: u64, route_id: u64) -> TripDescriptorV {
    TripDescriptorV {
        trip_id: Some(dec_digits(trip_id as int)),
        route_id: Some(dec_digits(route_id as int)),
        direction_id: None,
        start_time: None,
        start_date: None,
        schedule_relationship: None,
    }
}

/// The descriptor of the match at (`ti`, `si`).
pub open spec fn match_descriptor(s: &Schedule, ti: int, si: int, arr: u64) -> TripDescriptorV {
    let trip = s.csv_trips.deep_view()[ti];
    match frequency_index(s.csv_frequencies.deep_view(), trip.trip_id) {
        Some(fi) => frequency_descriptor(
            trip.trip_id,
            trip.route_id,
            frequency_start_secs(
                s.csv_frequencies.deep_view()[fi],
                s.csv_stop_times.deep_view()[si],
                arr,
            ),
            s.transit_workaround,
        ),
        None => fixed_descriptor(trip.trip_id, trip.route_id),
    }
}

/// What the engine returns for an arrival already placed on its service
/// day: the descriptor and stop-time row of the first match, or nothing
/// when a namespace link or the scan fails.
pub open spec fn find_trip_model(s: &Schedule, a: ArrivalV, arr: u64) -> Option<
    (TripDescriptorV, StopTimeV),
> {
    match resolved_ids(s, a) {
        None => None,
        Some((rid, sid)) => match first_pair_from(s, rid, sid, arr, 0) {
            None => None,
            Some((ti, si)) => Some(
                (match_descriptor(s, ti, si, arr), s.csv_stop_times.deep_view()[si]),
            ),
        },
    }
}

/// What the engine returns for an arrival: its timestamp placed on the
/// service day, then matched; nothing for a timestamp out of the
/// calendar's range.
pub open spec fn find_trip_for_arrival_model(s: &Schedule, a: ArrivalV) -> Option<
    (TripDescriptorV, StopTimeV),
> {
    match arrival_seconds_spec(a.timestamp) {
        None => None,
        Some(arr) => find_trip_model(s, a, arr),
    }
}

fn route_by_id(routes: &Vec<Route>, id: u64) -> (r: Option<usize>)
    ensures
        match r {
            Some(i) => i < routes@.len() && route_index(routes.deep_view(), id) == Some(i as int),
            None => route_index(routes.deep_view(), id) is None,
        },
{
    let ghost p = |rt: RouteV| rt.id == id;
    let ghost dv = routes.deep_view();
    let mut i: usize = 0;
    while i < routes.len()
        invariant
            i <= routes@.len(),
            dv == routes.deep_view(),
            dv.len() == routes@.len(),
            p == (|rt: RouteV| rt.id == id),
            forall|j: int| 0 <= j < i ==> !p(#[trigger] dv[j]),
        decreases routes@.len() - i,
    {
        proof {
            assert(dv[i as int] == routes@[i as int]@);
        }
        if routes[i].id == id {
            proof {
                lemma_find_index_of(dv, p, i as int);
            }
            return Some(i);
        }
        i = i + 1;
    }
    proof {
        lemma_find_index(dv, p);
    }
    None
}

fn csv_route_by_long_name(routes: &Vec<crate::schedule::CSVRoute>, name: &String) -> (r: Option<
    usize,
>)
    ensures
        match r {
            Some(i) => i < routes@.len() && csv_route_index(routes.deep_view(), name@) == Some(
                i as int,
            ),
            None => csv_route_index(routes.deep_view(), name@) is None,
        },
{
    let ghost p = |rt: CSVRouteV| rt.route_long_name == name@;
    let ghost dv = routes.deep_view();
    let mut i: usize = 0;
    while i < routes.len()
        invariant
            i <= routes@.len(),
            dv == routes.deep_view(),
            dv.len() == routes@.len(),
            p == (|rt: CSVRouteV| rt.route_long_name == name@),
            forall|j: int| 0 <= j < i ==> !p(#[trigger] dv[j]),
        decreases routes@.len() - i,
    {
        proof {
            assert(dv[i as int] == routes@[i as int]@);
        }
        if crate::tables::str_equal(routes[i].route_long_name.as_str(), name.as_str()) {
            proof {
                lemma_find_index_of(dv, p, i as int);
            }
            return Some(i);
        }
        i = i + 1;
    }
    proof {
        lemma_find_index(dv, p);
    }
    None
}

fn stop_in_route(stops: &Vec<crate::schedule::Stop>, id: u64) -> (r: Option<usize>)
    ensures
        match r {
            Some(i) => i < stops@.len() && stop_index(stops.deep_view(), id) == Some(i as int),
            None => stop_index(stops.deep_view(), id) is None,
        },
{
    let ghost p = |s: StopV| s.id == id;
    let ghost dv = stops.deep_view();
    let mut i: usize = 0;
    while i < stops.len()
        invariant
            i <= stops@.len(),
            dv == stops.deep_view(),
            dv.len() == stops@.len(),
            p == (|s: StopV| s.id == id),
            forall|j: int| 0 <= j < i ==> !p(#[trigger] dv[j]),
        decreases stops@.len() - i,
    {
        proof {
            assert(dv[i as int] == stops@[i as int]@);
        }
        if stops[i].id == id {
            proof {
                lemma_find_index_of(dv, p, i as int);
            }
            return Some(i);
        }
        i = i + 1;
    }
    proof {
        lemma_find_index(dv, p);
    }
    None
}

fn csv_stop_by_code(stops: &Vec<crate::schedule::CSVStop>, code: &String) -> (r: Option<usize>)
    ensures
        match r {
            Some(i) => i < stops@.len() && csv_stop_index(stops.deep_view(), code@) == Some(
                i as int,
            ),
            None => csv_stop_index(stops.deep_view(), code@) is None,
        },
{
    let ghost p = |s: CSVStopV| s.stop_code == code@;
    let ghost dv = stops.deep_view();
    let mut i: usize = 0;
    while i < stops.len()
        invariant
            i <= stops@.len(),
            dv == stops.deep_view(),
            dv.len() == stops@.len(),
            p == (|s: CSVStopV| s.stop_code == code@),
            forall|j: int| 0 <= j < i ==> !p(#[trigger] dv[j]),
        decreases stops@.len() - i,
    {
        proof {
            assert(dv[i as int] == stops@[i as int]@);
        }
        if crate::tables::str_equal(stops[i].stop_code.as_str(), code.as_str()) {
            proof {
                lemma_find_index_of(dv, p, i as int);
            }
            return Some(i);
        }
        i = i + 1;
    }
    proof {
        lemma_find_index(dv, p);
    }
    None
}

fn frequency_for(freqs: &Vec<CSVFrequency>, trip_id: u64) -> (r: Option<usize>)
    ensures
        match r {
            Some(i) => i < freqs@.len() && frequency_index(freqs.deep_view(), trip_id) == Some(
                i as int,
            ),
            None => frequency_index(freqs.deep_view(), trip_id) is None,
        },
{
    let ghost p = |f: CSVFrequencyV| f.trip_id == trip_id;
    let ghost dv = freqs.deep_view();
    let mut i: usize = 0;
    while i < freqs.len()
        invariant
            i <= freqs@.len(),
            dv == freqs.deep_view(),
            dv.len() == freqs@.len(),
            p == (|f: CSVFrequencyV| f.trip_id == trip_id),
            forall|j: int| 0 <= j < i ==> !p(#[trigger] dv[j]),
        decreases freqs@.len() - i,
    {
        proof {
            assert(dv[i as int] == freqs@[i as int]@);
        }
        if freqs[i].trip_id == trip_id {
            proof {
                lemma_find_index_of(dv, p, i as int);
            }
            return Some(i);
        }
        i = i + 1;
    }
    proof {
        lemma_find_index(dv, p);
    }
    None
}

/// The synthesized start time of a frequency-based trip instance, within
/// the buffered window.
fn frequency_start(f: &CSVFrequency, st: &StopTime, arr: u64) -> (r: u64)
    requires
        arr < 172800,
        within_buffer_spec(f.start_time.1, arr, f.end_time.1),
    ensures
        r as int == frequency_start_secs(f@, st@, arr),
        r < 600000,
{
    let start = f.start_time.1;
    let h = f.headway_secs;
    let sa = st.arrival_time.1;
    assert(start < 173400);
    if h == 0 {
        return start;
    }
    if arr <= sa {
        return start;
    }
    let d = arr - sa;
    if 2 * d < h {
        return start;
    }
    let num = 2 * d + h;
    let den = 2 * h;
    let iter = num / den;
    proof {
        let di = d as int;
        let hi = h as int;
        let it = (2 * di + hi) / (2 * hi);
        vstd::arithmetic::div_mod::lemma_fundamental_div_mod(2 * di + hi, 2 * hi);
        vstd::arithmetic::div_mod::lemma_mod_division_less_than_divisor(2 * di + hi, 2 * hi);
        assert((2 * hi) * it <= 2 * di + hi);
        vstd::arithmetic::div_mod::lemma_div_pos_is_pos(2 * di + hi, 2 * hi);
        assert((2 * hi) * it == 2 * (hi * it)) by (nonlinear_arith);
        assert(hi * it <= 2 * di);
        assert(hi * it >= 0) by (nonlinear_arith)
            requires
                hi > 0,
                it >= 0,
        ;
        assert(iter as int == it);
    }
    let prod = h * iter;
    start + prod
}

/// Scan the stop-times in CSV order for the first row qualifying for
/// this trip.
fn stop_time_scan(s: &Schedule, trip: &CSVTrip, sid: u64, arr: u64) -> (r: Option<usize>)
    ensures
        match r {
            Some(si) => si < s.csv_stop_times@.len() && stop_time_match_index(
                s,
                trip@,
                sid,
                arr,
            ) == Some(si as int),
            None => stop_time_match_index(s, trip@, sid, arr) is None,
        },
{
    let ghost p = |st: StopTimeV| stop_time_qualifies(s, trip@, st, sid, arr);
    let ghost stdv = s.csv_stop_times.deep_view();
    let freq = frequency_for(&s.csv_frequencies, trip.trip_id);
    let mut si: usize = 0;
    while si < s.csv_stop_times.len()
        invariant
            si <= s.csv_stop_times@.len(),
            stdv == s.csv_stop_times.deep_view(),
            stdv.len() == s.csv_stop_times@.len(),
            p == (|st: StopTimeV| stop_time_qualifies(s, trip@, st, sid, arr)),
            match freq {
                Some(fi) => fi < s.csv_frequencies@.len() && frequency_index(
                    s.csv_frequencies.deep_view(),
                    trip@.trip_id,
                ) == Some(fi as int),
                None => frequency_index(s.csv_frequencies.deep_view(), trip@.trip_id) is None,
            },
            forall|j: int| 0 <= j < si ==> !p(#[trigger] stdv[j]),
        decreases s.csv_stop_times@.len() - si,
    {
        let st = &s.csv_stop_times[si];
        proof {
            assert(stdv[si as int] == s.csv_stop_times@[si as int]@);
        }
        let q: bool = if st.trip_id != trip.trip_id {
            false
        } else {
            match freq {
                Some(fi) => {
                    let fr = &s.csv_frequencies[fi];
                    proof {
                        assert(s.csv_frequencies.deep_view()[fi as int] == s.csv_frequencies@[fi as int]@);
                    }
                    within_buffer(fr.start_time.1, arr, fr.end_time.1)
                },
                None => st.stop_id == sid && nearby(
                    arr,
                    (st.arrival_time.0.clone(), st.arrival_time.1),
                ),
            }
        };
        proof {
            assert(q == p(stdv[si as int]));
        }
        if q {
            proof {
                lemma_find_index_of(stdv, p, si as int);
            }
            return Some(si);
        }
        si = si + 1;
    }
    proof {
        lemma_find_index(stdv, p);
    }
    None
}

/// Scan the trips in CSV order for the first (trip, stop-time) match.
fn find_pair(s: &Schedule, rid: u64, sid: u64, arr: u64) -> (r: Option<(usize, usize)>)
    ensures
        match r {
            Some(pair) => {
                &&& pair.0 < s.csv_trips@.len()
                &&& pair.1 < s.csv_stop_times@.len()
                &&& first_pair_from(s, rid, sid, arr, 0) == Some((pair.0 as int, pair.1 as int))
                &&& s.csv_trips.deep_view()[pair.0 as int].route_id == rid
                &&& stop_time_match_index(s, s.csv_trips.deep_view()[pair.0 as int], sid, arr)
                    == Some(pair.1 as int)
            },
            None => first_pair_from(s, rid, sid, arr, 0) is None,
        },
{
    let ghost tdv = s.csv_trips.deep_view();
    let mut ti: usize = 0;
    while ti < s.csv_trips.len()
        invariant
            ti <= s.csv_trips@.len(),
            tdv == s.csv_trips.deep_view(),
            tdv.len() == s.csv_trips@.len(),
            first_pair_from(s, rid, sid, arr, 0) == first_pair_from(s, rid, sid, arr, ti as int),
        decreases s.csv_trips@.len() - ti,
    {
        proof {
            assert(tdv[ti as int] == s.csv_trips@[ti as int]@);
        }
        let trip = &s.csv_trips[ti];
        if trip.route_id == rid {
            match stop_time_scan(s, trip, sid, arr) {
                Some(si) => {
                    proof {
                        assert(first_pair_from(s, rid, sid, arr, ti as int) == Some(
                            (ti as int, si as int),
                        ));
                    }
                    return Some((ti, si));
                },
                None => {
                    proof {
                        assert(first_pair_from(s, rid, sid, arr, ti as int) == first_pair_from(
                            s,
                            rid,
                            sid,
                            arr,
                            ti as int + 1,
                        ));
                    }
                },
            }
        } else {
            proof {
                assert(first_pair_from(s, rid, sid, arr, ti as int) == first_pair_from(
                    s,
                    rid,
                    sid,
                    arr,
                    ti as int + 1,
                ));
            }
        }
        ti = ti + 1;
    }
    None
}

impl Schedule {
    /// Correlate an arrival already placed on its service day: resolve
    /// the namespace join, scan for the first matching trip instance in
    /// CSV order, and assemble its descriptor. Service-day seconds lie
    /// under two days (as `arrival_service_seconds` yields them); that
    /// bound keeps the synthesized start time within its integer type.
    pub fn find_trip_id_at(&self, arrival: &Arrival, arrival_seconds: u64) -> (r: Option<
        (TripDescriptor, StopTime),
    >)
        requires
            arrival_seconds < 172800,
        ensures
            match r {
                Some(p) => find_trip_model(self, arrival@, arrival_seconds) == Some((p.0@, p.1@)),
                None => find_trip_model(self, arrival@, arrival_seconds) is None,
            },
    {
        let arr = arrival_seconds;
        let ri = match route_by_id(&self.routes, arrival.route_id) {
            Some(i) => i,
            None => {
                return None;
            },
        };
        let route = &self.routes[ri];
        proof {
            assert(self.routes.deep_view()[ri as int] == self.routes@[ri as int]@);
        }
        let cri = match csv_route_by_long_name(&self.csv_routes, &route.long_name) {
            Some(i) => i,
            None => {
                return None;
            },
        };
        let sti = match stop_in_route(&route.stops, arrival.stop_id) {
            Some(i) => i,
            None => {
                return None;
            },
        };
        proof {
            assert(route.stops.deep_view()[sti as int] == route.stops@[sti as int]@);
        }
        let csi = match csv_stop_by_code(&self.csv_stops, &route.stops[sti].code) {
            Some(i) => i,
            None => {
                return None;
            },
        };
        let rid = self.csv_routes[cri].route_id;
        let sid = self.csv_stops[csi].stop_id;
        proof {
            assert(self.csv_routes.deep_view()[cri as int] == self.csv_routes@[cri as int]@);
            assert(self.csv_stops.deep_view()[csi as int] == self.csv_stops@[csi as int]@);
            assert(resolved_ids(self, arrival@) == Some((rid, sid)));
        }
        let pair = match find_pair(self, rid, sid, arr) {
            Some(p) => p,
            None => {
                return None;
            },
        };
        let ti = pair.0;
        let si = pair.1;
        let trip = &self.csv_trips[ti];
        let ghost tripv = self.csv_trips.deep_view()[ti as int];
        proof {
            assert(tripv == self.csv_trips@[ti as int]@);
            let p = |st: StopTimeV| stop_time_qualifies(self, tripv, st, sid, arr);
            assert(stop_time_match_index(self, tripv, sid, arr) == find_index(
                self.csv_stop_times.deep_view(),
                p,
            ));
            lemma_find_index(self.csv_stop_times.deep_view(), p);
            assert(stop_time_qualifies(
                self,
                tripv,
                self.csv_stop_times.deep_view()[si as int],
                sid,
                arr,
            ));
        }
        let freq = frequency_for(&self.csv_frequencies, trip.trip_id);
        let descriptor = match freq {
            Some(fi) => {
                let fr = &self.csv_frequencies[fi];
                let st = &self.csv_stop_times[si];
                proof {
                    assert(self.csv_frequencies.deep_view()[fi as int] == self.csv_frequencies@[fi as int]@);
                    assert(self.csv_stop_times.deep_view()[si as int] == self.csv_stop_times@[si as int]@);
                    assert(within_buffer_spec(fr@.start_time.1, arr, fr@.end_time.1));
                }
                let start_secs = frequency_start(fr, st, arr);
                let trip_id_str = if self.transit_workaround {
                    u64_to_string(trip.trip_id).concat("_").concat(
                        u64_to_string(start_secs).as_str(),
                    )
                } else {
                    u64_to_string(trip.trip_id)
                };
                proof {
                    reveal_strlit("_");
                    if self.transit_workaround {
                        assert(trip_id_str@ =~= dec_digits(trip.trip_id as int) + seq!['_']
                            + dec_digits(start_secs as int));
                    }
                }
                TripDescriptor {
                    trip_id: Some(trip_id_str),
                    route_id: Some(u64_to_string(trip.route_id)),
                    direction_id: None,
                    start_time: if self.transit_workaround {
                        None
                    } else {
                        Some(day_time_serializer(start_secs))
                    },
                    start_date: None,
                    schedule_relationship: Some(ScheduleRelationship::Scheduled),
                }
            },
            None => TripDescriptor {
                trip_id: Some(u64_to_string(trip.trip_id)),
                route_id: Some(u64_to_string(trip.route_id)),
                direction_id: None,
                start_time: None,
                start_date: None,
                schedule_relationship: None,
            },
        };
        proof {
            assert(descriptor@ == match_descriptor(self, ti as int, si as int, arr));
        }
        let row = self.csv_stop_times[si].clone();
        Some((descriptor, row))
    }

    /// Correlate an arrival: place its epoch timestamp on the service
    /// day (New York civil time, pre-04:00 rolled back), then match it.
    pub fn find_trip_id(&self, arrival: &Arrival) -> (r: Option<(TripDescriptor, StopTime)>)
        ensures
            match r {
                Some(p) => find_trip_for_arrival_model(self, arrival@) == Some((p.0@, p.1@)),
                None => find_trip_for_arrival_model(self, arrival@) is None,
            },
    {
        match arrival_service_seconds(arrival.timestamp) {
            Some(arr) => self.find_trip_id_at(arrival, arr),
            None => None,
        }
    }
}

} // verus!
