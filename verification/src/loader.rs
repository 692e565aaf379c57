//! The static schedule loader: reads the five GTFS tables out of the
//! fetched ZIP, joins the live endpoints' payloads into per-route stop
//! lists, and assembles the schedule bundle.

use vstd::prelude::*;

use crate::error::GenFeedError;
use crate::schedule::{
    RawRouteV, Route, RouteOutput, RouteV, Schedule, Stop, StopOutput, StopV, ThinRawRoute,
    ThinRawRouteV, VehicleStatuses,
};
use crate::tables::{
    decode_frequencies, decode_frequencies_model, decode_routes, decode_routes_model,
    decode_stop_times, decode_stop_times_model, decode_stops, decode_stops_model, decode_trips,
    decode_trips_model,
};
use crate::util::{find_index, lemma_find_index, lemma_find_index_of};

verus! {

/// The decompressed bytes of the archive member `name`; nothing when the
/// archive does not parse or has no such member.
pub uninterp spec fn zip_entry_of(data: Seq<u8>, name: Seq<char>) -> Option<Seq<u8>>;

/// Relies on the zip crate's `ZipArchive::new` and `ZipArchive::by_name`
/// over an in-memory cursor, and on `std::io::Read::read_to_end` of the
/// member: the member's decompressed bytes, a function of the archive
/// bytes and the name alone.
#[verifier::external_body]
fn zip_entry(data: &Vec<u8>, name: &str) -> (r: Option<Vec<u8>>)
    ensures
        match r {
            Some(b) => zip_entry_of(data@, name@) == Some(b@),
            None => zip_entry_of(data@, name@) is None,
        },
{
    let cursor = std::io::Cursor::new(data.clone());
    let mut archive = match zip::ZipArchive::new(cursor) {
        Ok(a) => a,
        Err(_) => return None,
    };
    let mut member = match archive.by_name(name) {
        Ok(f) => f,
        Err(_) => return None,
    };
    let mut out: Vec<u8> = Vec::new();
    match std::io::Read::read_to_end(&mut member, &mut out) {
        Ok(_) => Some(out),
        Err(_) => None,
    }
}

/// The records of a CSV byte stream, each a row of string cells, rows
/// that fail to read dropped.
pub uninterp spec fn csv_rows_of(data: Seq<u8>) -> Seq<Seq<Seq<char>>>;

/// Relies on the csv crate's `ReaderBuilder` (header handling off, so
/// the header arrives as the first row) and its `StringRecord` reader:
/// the rows of the byte stream in order, unreadable records dropped, a
/// function of the bytes alone.
#[verifier::external_body]
fn csv_rows(data: &Vec<u8>) -> (r: Vec<Vec<String>>)
    ensures
        r.deep_view() == csv_rows_of(data@),
{
    let mut reader = csv::ReaderBuilder::new().has_headers(false).from_reader(data.as_slice());
    let mut out: Vec<Vec<String>> = Vec::new();
    for record in reader.records() {
        if let Ok(rec) = record {
            out.push(rec.iter().map(|cell| cell.to_string()).collect());
        }
    }
    out
}

/// The rows of the table stored as archive member `name`.
pub open spec fn table_rows(zip: Seq<u8>, name: Seq<char>) -> Option<Seq<Seq<Seq<char>>>> {
    match zip_entry_of(zip, name) {
        Some(b) => Some(csv_rows_of(b)),
        None => None,
    }
}

/// Whether `ids` lists `x`.
fn contains_id(ids: &Vec<u64>, x: u64) -> (r: bool)
    ensures
        r == ids@.contains(x),
{
    let mut i: usize = 0;
    while i < ids.len()
        invariant
            i <= ids@.len(),
            forall|j: int| 0 <= j < i ==> ids@[j] != x,
        decreases ids@.len() - i,
    {
        if ids[i] == x {
            assert(ids@[i as int] == x);
            return true;
        }
        i = i + 1;
    }
    assert(!ids@.contains(x));
    false
}

/// The stops of `stops` whose ids appear in `ids`, in the stops
/// endpoint's order.
pub open spec fn kept_stops(stops: Seq<StopV>, ids: Seq<u64>) -> Seq<StopV>
    decreases stops.len(),
{
    if stops.len() == 0 {
        Seq::empty()
    } else {
        kept_stops(stops.drop_last(), ids) + if ids.contains(stops.last().id) {
            seq![stops.last()]
        } else {
            Seq::empty()
        }
    }
}

fn filter_stops(stops: &Vec<Stop>, ids: &Vec<u64>) -> (r: Vec<Stop>)
    ensures
        r.deep_view() == kept_stops(stops.deep_view(), ids@),
{
    let ghost sdv = stops.deep_view();
    let mut out: Vec<Stop> = Vec::new();
    let mut i: usize = 0;
    while i < stops.len()
        invariant
            i <= stops@.len(),
            sdv == stops.deep_view(),
            sdv.len() == stops@.len(),
            out.deep_view() == kept_stops(sdv.take(i as int), ids@),
        decreases stops@.len() - i,
    {
        let ghost prefix1 = sdv.take(i + 1);
        proof {
            assert(prefix1.drop_last() =~= sdv.take(i as int));
            assert(prefix1.last() == sdv[i as int]);
            assert(sdv[i as int] == stops@[i as int]@);
        }
        if contains_id(ids, stops[i].id) {
            out.push(stops[i].clone());
            proof {
                assert(out.deep_view() =~= kept_stops(prefix1, ids@));
            }
        } else {
            proof {
                assert(out.deep_view() =~= kept_stops(prefix1, ids@));
            }
        }
        i = i + 1;
    }
    proof {
        assert(sdv.take(sdv.len() as int) =~= sdv);
    }
    out
}

/// The live route a full route record joins to: its long name, its id,
/// and the stops the thin route lists, in the stops endpoint's order.
pub open spec fn joined_route(raw: RawRouteV, thin: ThinRawRouteV, stops: Seq<StopV>) -> RouteV {
    RouteV { long_name: raw.long_name, id: raw.id, stops: kept_stops(stops, thin.stops) }
}

/// Whether a full route record has no thin counterpart in the stops
/// endpoint's view.
pub open spec fn thin_route_missing(thins: Seq<ThinRawRouteV>, raw: RawRouteV) -> bool {
    find_index(thins, |t: ThinRawRouteV| t.id == raw.id) is None
}

/// What joining the live endpoints yields: each full route joined with
/// its thin counterpart, or the id of the first full route without one —
/// an inconsistent upstream snapshot.
pub open spec fn build_routes_model(
    raws: Seq<RawRouteV>,
    thins: Seq<ThinRawRouteV>,
    stops: Seq<StopV>,
) -> Result<Seq<RouteV>, u64> {
    match find_index(raws, |r: RawRouteV| thin_route_missing(thins, r)) {
        Some(i) => Err(raws[i].id),
        None => Ok(
            Seq::new(
                raws.len(),
                |i: int|
                    joined_route(
                        raws[i],
                        thins[find_index(thins, |t: ThinRawRouteV| t.id == raws[i].id)->Some_0],
                        stops,
                    ),
            ),
        ),
    }
}

fn find_thin(thins: &Vec<ThinRawRoute>, id: u64) -> (r: Option<usize>)
    ensures
        match r {
            Some(i) => i < thins@.len() && find_index(
                thins.deep_view(),
                |t: ThinRawRouteV| t.id == id,
            ) == Some(i as int),
            None => find_index(thins.deep_view(), |t: ThinRawRouteV| t.id == id) is None,
        },
{
    let ghost p = |t: ThinRawRouteV| t.id == id;
    let ghost tdv = thins.deep_view();
    let mut i: usize = 0;
    while i < thins.len()
        invariant
            i <= thins@.len(),
            tdv == thins.deep_view(),
            tdv.len() == thins@.len(),
            p == (|t: ThinRawRouteV| t.id == id),
            forall|j: int| 0 <= j < i ==> !p(#[trigger] tdv[j]),
        decreases thins@.len() - i,
    {
        proof {
            assert(tdv[i as int] == thins@[i as int]@);
        }
        if thins[i].id == id {
            proof {
                lemma_find_index_of(tdv, p, i as int);
            }
            return Some(i);
        }
        i = i + 1;
    }
    proof {
        lemma_find_index(tdv, p);
    }
    None
}

/// Join the routes endpoint's full records with the stops endpoint's
/// thin records and stop list.
pub fn build_routes(raws: &Vec<crate::schedule::RawRoute>, thins: &Vec<ThinRawRoute>, stops: &Vec<
    Stop,
>) -> (r: Result<Vec<Route>, u64>)
    ensures
        match r {
            Ok(routes) => build_routes_model(
                raws.deep_view(),
                thins.deep_view(),
                stops.deep_view(),
            ) == Ok::<Seq<RouteV>, u64>(routes.deep_view()),
            Err(id) => build_routes_model(raws.deep_view(), thins.deep_view(), stops.deep_view())
                == Err::<Seq<RouteV>, u64>(id),
        },
{
    let ghost rdv = raws.deep_view();
    let ghost tdv = thins.deep_view();
    let ghost sdv = stops.deep_view();
    let ghost missing = |r: RawRouteV| thin_route_missing(tdv, r);
    let mut out: Vec<Route> = Vec::new();
    let mut i: usize = 0;
    while i < raws.len()
        invariant
            i <= raws@.len(),
            rdv == raws.deep_view(),
            tdv == thins.deep_view(),
            sdv == stops.deep_view(),
            rdv.len() == raws@.len(),
            missing == (|r: RawRouteV| thin_route_missing(tdv, r)),
            out.deep_view().len() == i,
            forall|j: int| 0 <= j < i ==> !missing(#[trigger] rdv[j]),
            forall|j: int|
                0 <= j < i ==> out.deep_view()[j] == joined_route(
                    rdv[j],
                    tdv[find_index(tdv, |t: ThinRawRouteV| t.id == rdv[j].id)->Some_0],
                    sdv,
                ),
        decreases raws@.len() - i,
    {
        proof {
            assert(rdv[i as int] == raws@[i as int]@);
        }
        match find_thin(thins, raws[i].id) {
            Some(ti) => {
                let kept = filter_stops(stops, &thins[ti].stops);
                proof {
                    assert(tdv[ti as int] == thins@[ti as int]@);
                }
                let route = Route {
                    long_name: raws[i].long_name.clone(),
                    id: raws[i].id,
                    stops: kept,
                };
                let ghost routev = route@;
                let ghost prev = out.deep_view();
                out.push(route);
                proof {
                    assert(find_index(tdv, |t: ThinRawRouteV| t.id == rdv[i as int].id) == Some(
                        ti as int,
                    ));
                    assert(routev == joined_route(rdv[i as int], tdv[ti as int], sdv));
                    assert forall|j: int| 0 <= j < i + 1 implies out.deep_view()[j] == joined_route(
                        rdv[j],
                        tdv[find_index(tdv, |t: ThinRawRouteV| t.id == rdv[j].id)->Some_0],
                        sdv,
                    ) by {
                        if j < i {
                            assert(out.deep_view()[j] == prev[j]);
                        } else {
                            assert(out.deep_view()[j] == routev);
                        }
                    }
                }
            },
            None => {
                proof {
                    assert(missing(rdv[i as int]));
                    lemma_find_index_of(rdv, missing, i as int);
                }
                return Err(raws[i].id);
            },
        }
        i = i + 1;
    }
    proof {
        lemma_find_index(rdv, missing);
        match find_index(rdv, missing) {
            Some(k) => {
                assert(!missing(rdv[k]));
                assert(false);
            },
            None => {},
        }
        assert(out.deep_view() =~= Seq::new(
            rdv.len(),
            |j: int|
                joined_route(
                    rdv[j],
                    tdv[find_index(tdv, |t: ThinRawRouteV| t.id == rdv[j].id)->Some_0],
                    sdv,
                ),
        ));
    }
    Ok(out)
}

/// Assemble the schedule bundle: join the live endpoints' payloads and
/// decode the five static tables out of the fetched ZIP bytes.
///
/// Fails with `MissingRoute` when a live route has no counterpart in the
/// stops endpoint's view, and with `Zip` when the archive does not parse
/// or lacks one of the five tables.
pub fn get_schedule(
    zip_bytes: &Vec<u8>,
    stops: StopOutput,
    routes: RouteOutput,
    vehicle_statuses: VehicleStatuses,
    transit_workaround: bool,
) -> (r: Result<Schedule, GenFeedError>)
    ensures
        match r {
            Ok(s) => {
                &&& build_routes_model(
                    routes.routes.deep_view(),
                    stops.routes.deep_view(),
                    stops.stops.deep_view(),
                ) == Ok::<Seq<RouteV>, u64>(s.routes.deep_view())
                &&& table_rows(zip_bytes@, "routes.txt"@) matches Some(rows) && s.csv_routes.deep_view() == decode_routes_model(rows)
                &&& table_rows(zip_bytes@, "stop_times.txt"@) matches Some(rows)
                    && s.csv_stop_times.deep_view() == decode_stop_times_model(rows)
                &&& table_rows(zip_bytes@, "trips.txt"@) matches Some(rows) && s.csv_trips.deep_view() == decode_trips_model(rows)
                &&& table_rows(zip_bytes@, "stops.txt"@) matches Some(rows) && s.csv_stops.deep_view() == decode_stops_model(rows)
                &&& table_rows(zip_bytes@, "frequencies.txt"@) matches Some(rows)
                    && s.csv_frequencies.deep_view() == decode_frequencies_model(rows)
                &&& s.arrivals == vehicle_statuses.arrivals
                &&& s.vehicles == vehicle_statuses.vehicles
                &&& s.transit_workaround == transit_workaround
            },
            Err(e) => match e {
                GenFeedError::MissingRoute(id) => build_routes_model(
                    routes.routes.deep_view(),
                    stops.routes.deep_view(),
                    stops.stops.deep_view(),
                ) == Err::<Seq<RouteV>, u64>(id),
                GenFeedError::Zip => build_routes_model(
                    routes.routes.deep_view(),
                    stops.routes.deep_view(),
                    stops.stops.deep_view(),
                ) is Ok && (table_rows(zip_bytes@, "routes.txt"@) is None || table_rows(
                    zip_bytes@,
                    "stop_times.txt"@,
                ) is None || table_rows(zip_bytes@, "trips.txt"@) is None || table_rows(
                    zip_bytes@,
                    "stops.txt"@,
                ) is None || table_rows(zip_bytes@, "frequencies.txt"@) is None),
                _ => false,
            },
        },
{
    let live_routes = match build_routes(&routes.routes, &stops.routes, &stops.stops) {
        Ok(v) => v,
        Err(id) => {
            return Err(GenFeedError::MissingRoute(id));
        },
    };
    let routes_rows = match zip_entry(zip_bytes, "routes.txt") {
        Some(b) => csv_rows(&b),
        None => {
            return Err(GenFeedError::Zip);
        },
    };
    let stop_times_rows = match zip_entry(zip_bytes, "stop_times.txt") {
        Some(b) => csv_rows(&b),
        None => {
            return Err(GenFeedError::Zip);
        },
    };
    let trips_rows = match zip_entry(zip_bytes, "trips.txt") {
        Some(b) => csv_rows(&b),
        None => {
            return Err(GenFeedError::Zip);
        },
    };
    let stops_rows = match zip_entry(zip_bytes, "stops.txt") {
        Some(b) => csv_rows(&b),
        None => {
            return Err(GenFeedError::Zip);
        },
    };
    let frequencies_rows = match zip_entry(zip_bytes, "frequencies.txt") {
        Some(b) => csv_rows(&b),
        None => {
            return Err(GenFeedError::Zip);
        },
    };
    let csv_routes = decode_routes(&routes_rows);
    let csv_stop_times = decode_stop_times(&stop_times_rows);
    let csv_trips = decode_trips(&trips_rows);
    let csv_stops = decode_stops(&stops_rows);
    let csv_frequencies = decode_frequencies(&frequencies_rows);
    Ok(
        Schedule {
            routes: live_routes,
            csv_routes,
            csv_stop_times,
            csv_trips,
            csv_stops,
            csv_frequencies,
            arrivals: vehicle_statuses.arrivals,
            vehicles: vehicle_statuses.vehicles,
            transit_workaround,
        },
    )
}

} // verus!
