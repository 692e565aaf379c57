//! Decoding of the five static GTFS tables from their CSV rows.
//!
//! A table arrives as raw rows of cells (the first row is the header).
//! Each table names its columns; a row decodes when every named column
//! is present and its cell parses. A row that does not decode is
//! silently dropped — a bad row never aborts the load.

use vstd::prelude::*;

use crate::numbers::{parse_u64, parse_u64_spec, parse_uint, parse_uint_spec};
use crate::schedule::{
    CSVFrequency, CSVFrequencyV, CSVRoute, CSVRouteV, CSVStop, CSVStopV, CSVTrip, CSVTripV,
    StopTime, StopTimeV,
};
use crate::time::{parse_day_time, parse_day_time_spec};
use crate::util::{find_index, lemma_find_index, lemma_find_index_of};

verus! {

/// Character-for-character string equality.
pub fn str_equal(a: &str, b: &str) -> (r: bool)
    ensures
        r == (a@ == b@),
{
    let n = a.unicode_len();
    if n != b.unicode_len() {
        proof {
            assert(a@ != b@);
        }
        return false;
    }
    let mut i: usize = 0;
    while i < n
        invariant
            i <= n,
            n == a@.len(),
            n == b@.len(),
            forall|j: int| 0 <= j < i ==> a@[j] == b@[j],
        decreases n - i,
    {
        if a.get_char(i) != b.get_char(i) {
            proof {
                assert(a@[i as int] != b@[i as int]);
            }
            return false;
        }
        i = i + 1;
    }
    proof {
        assert(a@ =~= b@);
    }
    true
}

/// Index of the first header column named `name`.
fn find_col(header: &Vec<String>, name: &str) -> (r: Option<usize>)
    ensures
        match r {
            Some(i) => i < header@.len() && find_index(
                header.deep_view(),
                |c: Seq<char>| c == name@,
            ) == Some(i as int),
            None => find_index(header.deep_view(), |c: Seq<char>| c == name@) is None,
        },
{
    let ghost p = |c: Seq<char>| c == name@;
    let ghost hdv = header.deep_view();
    let mut i: usize = 0;
    while i < header.len()
        invariant
            i <= header@.len(),
            hdv == header.deep_view(),
            p == (|c: Seq<char>| c == name@),
            forall|j: int| 0 <= j < i ==> !p(#[trigger] hdv[j]),
        decreases header@.len() - i,
    {
        proof {
            assert(hdv[i as int] == header@[i as int]@);
        }
        if str_equal(header[i].as_str(), name) {
            proof {
                lemma_find_index_of(hdv, p, i as int);
            }
            return Some(i);
        }
        i = i + 1;
    }
    proof {
        lemma_find_index(hdv, p);
    }
    None
}

/// The cell of `row` under the header column named `name`.
pub open spec fn cell(h: Seq<Seq<char>>, row: Seq<Seq<char>>, name: Seq<char>) -> Option<
    Seq<char>,
> {
    match find_index(h, |c: Seq<char>| c == name) {
        Some(i) => if i < row.len() {
            Some(row[i])
        } else {
            None
        },
        None => None,
    }
}

pub open spec fn cell_u64(h: Seq<Seq<char>>, row: Seq<Seq<char>>, name: Seq<char>) -> Option<
    u64,
> {
    match cell(h, row, name) {
        Some(c) => parse_u64_spec(c),
        None => None,
    }
}

pub open spec fn cell_u32(h: Seq<Seq<char>>, row: Seq<Seq<char>>, name: Seq<char>) -> Option<
    u32,
> {
    match cell(h, row, name) {
        Some(c) => match parse_uint_spec(c, u32::MAX as int) {
            Some(v) => Some(v as u32),
            None => None,
        },
        None => None,
    }
}

pub open spec fn cell_u8(h: Seq<Seq<char>>, row: Seq<Seq<char>>, name: Seq<char>) -> Option<u8> {
    match cell(h, row, name) {
        Some(c) => match parse_uint_spec(c, u8::MAX as int) {
            Some(v) => Some(v as u8),
            None => None,
        },
        None => None,
    }
}

/// A day-time cell: the raw text and its parsed value.
pub open spec fn cell_day_time(h: Seq<Seq<char>>, row: Seq<Seq<char>>, name: Seq<char>) -> Option<
    (Seq<char>, u64),
> {
    match cell(h, row, name) {
        Some(c) => match parse_day_time_spec(c) {
            Some(v) => Some((c, v)),
            None => None,
        },
        None => None,
    }
}

fn get_cell(header: &Vec<String>, row: &Vec<String>, name: &str) -> (r: Option<String>)
    ensures
        match r {
            Some(c) => cell(header.deep_view(), row.deep_view(), name@) == Some(c@),
            None => cell(header.deep_view(), row.deep_view(), name@) is None,
        },
{
    match find_col(header, name) {
        Some(i) => if i < row.len() {
            let c = row[i].clone();
            proof {
                assert(row.deep_view()[i as int] == row@[i as int]@);
            }
            Some(c)
        } else {
            None
        },
        None => None,
    }
}

fn get_cell_u64(header: &Vec<String>, row: &Vec<String>, name: &str) -> (r: Option<u64>)
    ensures
        r == cell_u64(header.deep_view(), row.deep_view(), name@),
{
    match get_cell(header, row, name) {
        Some(c) => parse_u64(c.as_str()),
        None => None,
    }
}

fn get_cell_u32(header: &Vec<String>, row: &Vec<String>, name: &str) -> (r: Option<u32>)
    ensures
        r == cell_u32(header.deep_view(), row.deep_view(), name@),
{
    match get_cell(header, row, name) {
        Some(c) => match parse_uint(c.as_str(), u32::MAX as u64) {
            Some(v) => Some(v as u32),
            None => None,
        },
        None => None,
    }
}

fn get_cell_u8(header: &Vec<String>, row: &Vec<String>, name: &str) -> (r: Option<u8>)
    ensures
        r == cell_u8(header.deep_view(), row.deep_view(), name@),
{
    match get_cell(header, row, name) {
        Some(c) => match parse_uint(c.as_str(), u8::MAX as u64) {
            Some(v) => Some(v as u8),
            None => None,
        },
        None => None,
    }
}

fn get_cell_day_time(header: &Vec<String>, row: &Vec<String>, name: &str) -> (r: Option<
    (String, u64),
>)
    ensures
        match r {
            Some(p) => cell_day_time(header.deep_view(), row.deep_view(), name@) == Some(
                (p.0@, p.1),
            ),
            None => cell_day_time(header.deep_view(), row.deep_view(), name@) is None,
        },
{
    match get_cell(header, row, name) {
        Some(c) => parse_day_time(c.as_str()),
        None => None,
    }
}

/// What a `routes.txt` row decodes to: every column present and parsed.
pub open spec fn route_row_model(h: Seq<Seq<char>>, row: Seq<Seq<char>>) -> Option<CSVRouteV> {
    if cell_u64(h, row, "route_id"@) is Some && cell(h, row, "route_short_name"@) is Some && cell(
        h,
        row,
        "route_long_name"@,
    ) is Some && cell(h, row, "route_desc"@) is Some && cell(h, row, "route_url"@) is Some && cell(
        h,
        row,
        "route_color"@,
    ) is Some && cell(h, row, "route_text_color"@) is Some && cell_u64(
        h,
        row,
        "route_type"@,
    ) is Some {
        Some(
            CSVRouteV {
                route_id: cell_u64(h, row, "route_id"@)->Some_0,
                route_short_name: cell(h, row, "route_short_name"@)->Some_0,
                route_long_name: cell(h, row, "route_long_name"@)->Some_0,
                route_desc: cell(h, row, "route_desc"@)->Some_0,
                route_url: cell(h, row, "route_url"@)->Some_0,
                route_color: cell(h, row, "route_color"@)->Some_0,
                route_text_color: cell(h, row, "route_text_color"@)->Some_0,
                route_type: cell_u64(h, row, "route_type"@)->Some_0,
            },
        )
    } else {
        None
    }
}

fn decode_route_row(header: &Vec<String>, row: &Vec<String>) -> (r: Option<CSVRoute>)
    ensures
        match r {
            Some(x) => route_row_model(header.deep_view(), row.deep_view()) == Some(x@),
            None => route_row_model(header.deep_view(), row.deep_view()) is None,
        },
{
    let route_id = match get_cell_u64(header, row, "route_id") {
        Some(v) => v,
        None => {
            return None;
        },
    };
    let route_short_name = match get_cell(header, row, "route_short_name") {
        Some(v) => v,
        None => {
            return None;
        },
    };
    let route_long_name = match get_cell(header, row, "route_long_name") {
        Some(v) => v,
        None => {
            return None;
        },
    };
    let route_desc = match get_cell(header, row, "route_desc") {
        Some(v) => v,
        None => {
            return None;
        },
    };
    let route_url = match get_cell(header, row, "route_url") {
        Some(v) => v,
        None => {
            return None;
        },
    };
    let route_color = match get_cell(header, row, "route_color") {
        Some(v) => v,
        None => {
            return None;
        },
    };
    let route_text_color = match get_cell(header, row, "route_text_color") {
        Some(v) => v,
        None => {
            return None;
        },
    };
    let route_type = match get_cell_u64(header, row, "route_type") {
        Some(v) => v,
        None => {
            return None;
        },
    };
    Some(
        CSVRoute {
            route_id,
            route_short_name,
            route_long_name,
            route_desc,
            route_url,
            route_color,
            route_text_color,
            route_type,
        },
    )
}

/// The decoded rows after the header, in file order, bad rows dropped.
pub open spec fn routes_model_from(h: Seq<Seq<char>>, rows: Seq<Seq<Seq<char>>>) -> Seq<CSVRouteV>
    decreases rows.len(),
{
    if rows.len() == 0 {
        Seq::empty()
    } else {
        routes_model_from(h, rows.drop_last()) + match route_row_model(h, rows.last()) {
            Some(x) => seq![x],
            None => Seq::empty(),
        }
    }
}

/// What decoding `routes.txt` yields: nothing without a header row, else
/// each following row decoded against the header, bad rows dropped.
pub open spec fn decode_routes_model(rows: Seq<Seq<Seq<char>>>) -> Seq<CSVRouteV> {
    if rows.len() == 0 {
        Seq::empty()
    } else {
        routes_model_from(rows[0], rows.drop_first())
    }
}

pub fn decode_routes(rows: &Vec<Vec<String>>) -> (r: Vec<CSVRoute>)
    ensures
        r.deep_view() == decode_routes_model(rows.deep_view()),
{
    let ghost rows_dv = rows.deep_view();
    let mut out: Vec<CSVRoute> = Vec::new();
    if rows.len() == 0 {
        proof {
            assert(out.deep_view() =~= decode_routes_model(rows_dv));
        }
        return out;
    }
    let header = &rows[0];
    proof {
        assert(rows_dv[0] == header.deep_view());
    }
    let mut i: usize = 1;
    while i < rows.len()
        invariant
            1 <= i <= rows@.len(),
            rows_dv == rows.deep_view(),
            rows_dv.len() == rows@.len(),
            rows_dv[0] == header.deep_view(),
            out.deep_view() == routes_model_from(rows_dv[0], rows_dv.subrange(1, i as int)),
        decreases rows@.len() - i,
    {
        let ghost prefix = rows_dv.subrange(1, i as int);
        let ghost prefix1 = rows_dv.subrange(1, i + 1);
        proof {
            assert(prefix1.drop_last() =~= prefix);
            assert(prefix1.last() == rows_dv[i as int]);
            assert(rows_dv[i as int] == rows@[i as int].deep_view());
        }
        match decode_route_row(header, &rows[i]) {
            Some(x) => {
                out.push(x);
                proof {
                    assert(out.deep_view() =~= routes_model_from(rows_dv[0], prefix1));
                }
            },
            None => {
                proof {
                    assert(out.deep_view() =~= routes_model_from(rows_dv[0], prefix1));
                }
            },
        }
        i = i + 1;
    }
    proof {
        assert(rows_dv.subrange(1, rows_dv.len() as int) =~= rows_dv.drop_first());
    }
    out
}

/// What a `trips.txt` row decodes to.
pub open spec fn trip_row_model(h: Seq<Seq<char>>, row: Seq<Seq<char>>) -> Option<CSVTripV> {
    if cell_u64(h, row, "trip_id"@) is Some && cell_u64(h, row, "route_id"@) is Some && cell_u64(
        h,
        row,
        "service_id"@,
    ) is Some && cell(h, row, "trip_headsign"@) is Some && cell(
        h,
        row,
        "trip_short_name"@,
    ) is Some && cell_u64(h, row, "direction_id"@) is Some && cell(h, row, "shape_id"@) is Some
        && cell_u64(h, row, "wheelchair_accessible"@) is Some && cell_u64(
        h,
        row,
        "bikes_allowed"@,
    ) is Some && cell(h, row, "block_id"@) is Some && cell(h, row, "block_name"@) is Some {
        Some(
            CSVTripV {
                trip_id: cell_u64(h, row, "trip_id"@)->Some_0,
                route_id: cell_u64(h, row, "route_id"@)->Some_0,
                service_id: cell_u64(h, row, "service_id"@)->Some_0,
                trip_headsign: cell(h, row, "trip_headsign"@)->Some_0,
                trip_short_name: cell(h, row, "trip_short_name"@)->Some_0,
                direction_id: cell_u64(h, row, "direction_id"@)->Some_0,
                shape_id: cell(h, row, "shape_id"@)->Some_0,
                wheelchair_accessible: cell_u64(h, row, "wheelchair_accessible"@)->Some_0,
                bikes_allowed: cell_u64(h, row, "bikes_allowed"@)->Some_0,
                block_id: cell(h, row, "block_id"@)->Some_0,
                block_name: cell(h, row, "block_name"@)->Some_0,
            },
        )
    } else {
        None
    }
}

fn decode_trip_row(header: &Vec<String>, row: &Vec<String>) -> (r: Option<CSVTrip>)
    ensures
        match r {
            Some(x) => trip_row_model(header.deep_view(), row.deep_view()) == Some(x@),
            None => trip_row_model(header.deep_view(), row.deep_view()) is None,
        },
{
    let trip_id = match get_cell_u64(header, row, "trip_id") {
        Some(v) => v,
        None => {
            return None;
        },
    };
    let route_id = match get_cell_u64(header, row, "route_id") {
        Some(v) => v,
        None => {
            return None;
        },
    };
    let service_id = match get_cell_u64(header, row, "service_id") {
        Some(v) => v,
        None => {
            return None;
        },
    };
    let trip_headsign = match get_cell(header, row, "trip_headsign") {
        Some(v) => v,
        None => {
            return None;
        },
    };
    let trip_short_name = match get_cell(header, row, "trip_short_name") {
        Some(v) => v,
        None => {
            return None;
        },
    };
    let direction_id = match get_cell_u64(header, row, "direction_id") {
        Some(v) => v,
        None => {
            return None;
        },
    };
    let shape_id = match get_cell(header, row, "shape_id") {
        Some(v) => v,
        None => {
            return None;
        },
    };
    let wheelchair_accessible = match get_cell_u64(header, row, "wheelchair_accessible") {
        Some(v) => v,
        None => {
            return None;
        },
    };
    let bikes_allowed = match get_cell_u64(header, row, "bikes_allowed") {
        Some(v) => v,
        None => {
            return None;
        },
    };
    let block_id = match get_cell(header, row, "block_id") {
        Some(v) => v,
        None => {
            return None;
        },
    };
    let block_name = match get_cell(header, row, "block_name") {
        Some(v) => v,
        None => {
            return None;
        },
    };
    Some(
        CSVTrip {
            trip_id,
            route_id,
            service_id,
            trip_headsign,
            trip_short_name,
            direction_id,
            shape_id,
            wheelchair_accessible,
            bikes_allowed,
            block_id,
            block_name,
        },
    )
}

pub open spec fn trips_model_from(h: Seq<Seq<char>>, rows: Seq<Seq<Seq<char>>>) -> Seq<CSVTripV>
    decreases rows.len(),
{
    if rows.len() == 0 {
        Seq::empty()
    } else {
        trips_model_from(h, rows.drop_last()) + match trip_row_model(h, rows.last()) {
            Some(x) => seq![x],
            None => Seq::empty(),
        }
    }
}

/// What decoding `trips.txt` yields.
pub open spec fn decode_trips_model(rows: Seq<Seq<Seq<char>>>) -> Seq<CSVTripV> {
    if rows.len() == 0 {
        Seq::empty()
    } else {
        trips_model_from(rows[0], rows.drop_first())
    }
}

pub fn decode_trips(rows: &Vec<Vec<String>>) -> (r: Vec<CSVTrip>)
    ensures
        r.deep_view() == decode_trips_model(rows.deep_view()),
{
    let ghost rows_dv = rows.deep_view();
    let mut out: Vec<CSVTrip> = Vec::new();
    if rows.len() == 0 {
        proof {
            assert(out.deep_view() =~= decode_trips_model(rows_dv));
        }
        return out;
    }
    let header = &rows[0];
    proof {
        assert(rows_dv[0] == header.deep_view());
    }
    let mut i: usize = 1;
    while i < rows.len()
        invariant
            1 <= i <= rows@.len(),
            rows_dv == rows.deep_view(),
            rows_dv.len() == rows@.len(),
            rows_dv[0] == header.deep_view(),
            out.deep_view() == trips_model_from(rows_dv[0], rows_dv.subrange(1, i as int)),
        decreases rows@.len() - i,
    {
        let ghost prefix = rows_dv.subrange(1, i as int);
        let ghost prefix1 = rows_dv.subrange(1, i + 1);
        proof {
            assert(prefix1.drop_last() =~= prefix);
            assert(prefix1.last() == rows_dv[i as int]);
            assert(rows_dv[i as int] == rows@[i as int].deep_view());
        }
        match decode_trip_row(header, &rows[i]) {
            Some(x) => {
                out.push(x);
                proof {
                    assert(out.deep_view() =~= trips_model_from(rows_dv[0], prefix1));
                }
            },
            None => {
                proof {
                    assert(out.deep_view() =~= trips_model_from(rows_dv[0], prefix1));
                }
            },
        }
        i = i + 1;
    }
    proof {
        assert(rows_dv.subrange(1, rows_dv.len() as int) =~= rows_dv.drop_first());
    }
    out
}

/// What a `stops.txt` row decodes to. The position columns are kept as
/// raw text.
pub open spec fn stop_row_model(h: Seq<Seq<char>>, row: Seq<Seq<char>>) -> Option<CSVStopV> {
    if cell_u64(h, row, "stop_id"@) is Some && cell(h, row, "stop_code"@) is Some && cell(
        h,
        row,
        "stop_name"@,
    ) is Some && cell(h, row, "stop_desc"@) is Some && cell(h, row, "stop_lat"@) is Some && cell(
        h,
        row,
        "stop_lon"@,
    ) is Some && cell(h, row, "stop_url"@) is Some && cell_u64(h, row, "location_type"@) is Some {
        Some(
            CSVStopV {
                stop_id: cell_u64(h, row, "stop_id"@)->Some_0,
                stop_code: cell(h, row, "stop_code"@)->Some_0,
                stop_name: cell(h, row, "stop_name"@)->Some_0,
                stop_desc: cell(h, row, "stop_desc"@)->Some_0,
                stop_lat: cell(h, row, "stop_lat"@)->Some_0,
                stop_lon: cell(h, row, "stop_lon"@)->Some_0,
                stop_url: cell(h, row, "stop_url"@)->Some_0,
                location_type: cell_u64(h, row, "location_type"@)->Some_0,
            },
        )
    } else {
        None
    }
}

fn decode_stop_row(header: &Vec<String>, row: &Vec<String>) -> (r: Option<CSVStop>)
    ensures
        match r {
            Some(x) => stop_row_model(header.deep_view(), row.deep_view()) == Some(x@),
            None => stop_row_model(header.deep_view(), row.deep_view()) is None,
        },
{
    let stop_id = match get_cell_u64(header, row, "stop_id") {
        Some(v) => v,
        None => {
            return None;
        },
    };
    let stop_code = match get_cell(header, row, "stop_code") {
        Some(v) => v,
        None => {
            return None;
        },
    };
    let stop_name = match get_cell(header, row, "stop_name") {
        Some(v) => v,
        None => {
            return None;
        },
    };
    let stop_desc = match get_cell(header, row, "stop_desc") {
        Some(v) => v,
        None => {
            return None;
        },
    };
    let stop_lat = match get_cell(header, row, "stop_lat") {
        Some(v) => v,
        None => {
            return None;
        },
    };
    let stop_lon = match get_cell(header, row, "stop_lon") {
        Some(v) => v,
        None => {
            return None;
        },
    };
    let stop_url = match get_cell(header, row, "stop_url") {
        Some(v) => v,
        None => {
            return None;
        },
    };
    let location_type = match get_cell_u64(header, row, "location_type") {
        Some(v) => v,
        None => {
            return None;
        },
    };
    Some(
        CSVStop {
            stop_id,
            stop_code,
            stop_name,
            stop_desc,
            stop_lat,
            stop_lon,
            stop_url,
            location_type,
        },
    )
}

pub open spec fn stops_model_from(h: Seq<Seq<char>>, rows: Seq<Seq<Seq<char>>>) -> Seq<CSVStopV>
    decreases rows.len(),
{
    if rows.len() == 0 {
        Seq::empty()
    } else {
        stops_model_from(h, rows.drop_last()) + match stop_row_model(h, rows.last()) {
            Some(x) => seq![x],
            None => Seq::empty(),
        }
    }
}

/// What decoding `stops.txt` yields.
pub open spec fn decode_stops_model(rows: Seq<Seq<Seq<char>>>) -> Seq<CSVStopV> {
    if rows.len() == 0 {
        Seq::empty()
    } else {
        stops_model_from(rows[0], rows.drop_first())
    }
}

pub fn decode_stops(rows: &Vec<Vec<String>>) -> (r: Vec<CSVStop>)
    ensures
        r.deep_view() == decode_stops_model(rows.deep_view()),
{
    let ghost rows_dv = rows.deep_view();
    let mut out: Vec<CSVStop> = Vec::new();
    if rows.len() == 0 {
        proof {
            assert(out.deep_view() =~= decode_stops_model(rows_dv));
        }
        return out;
    }
    let header = &rows[0];
    proof {
        assert(rows_dv[0] == header.deep_view());
    }
    let mut i: usize = 1;
    while i < rows.len()
        invariant
            1 <= i <= rows@.len(),
            rows_dv == rows.deep_view(),
            rows_dv.len() == rows@.len(),
            rows_dv[0] == header.deep_view(),
            out.deep_view() == stops_model_from(rows_dv[0], rows_dv.subrange(1, i as int)),
        decreases rows@.len() - i,
    {
        let ghost prefix = rows_dv.subrange(1, i as int);
        let ghost prefix1 = rows_dv.subrange(1, i + 1);
        proof {
            assert(prefix1.drop_last() =~= prefix);
            assert(prefix1.last() == rows_dv[i as int]);
            assert(rows_dv[i as int] == rows@[i as int].deep_view());
        }
        match decode_stop_row(header, &rows[i]) {
            Some(x) => {
                out.push(x);
                proof {
                    assert(out.deep_view() =~= stops_model_from(rows_dv[0], prefix1));
                }
            },
            None => {
                proof {
                    assert(out.deep_view() =~= stops_model_from(rows_dv[0], prefix1));
                }
            },
        }
        i = i + 1;
    }
    proof {
        assert(rows_dv.subrange(1, rows_dv.len() as int) =~= rows_dv.drop_first());
    }
    out
}

/// What a `stop_times.txt` row decodes to. The day-time columns carry
/// the raw text with the parsed value.
pub open spec fn stop_time_row_model(h: Seq<Seq<char>>, row: Seq<Seq<char>>) -> Option<StopTimeV> {
    if cell_u64(h, row, "trip_id"@) is Some && cell_day_time(h, row, "arrival_time"@) is Some
        && cell_day_time(h, row, "departure_time"@) is Some && cell_u64(h, row, "stop_id"@) is Some
        && cell_u32(h, row, "stop_sequence"@) is Some {
        Some(
            StopTimeV {
                trip_id: cell_u64(h, row, "trip_id"@)->Some_0,
                arrival_time: cell_day_time(h, row, "arrival_time"@)->Some_0,
                departure_time: cell_day_time(h, row, "departure_time"@)->Some_0,
                stop_id: cell_u64(h, row, "stop_id"@)->Some_0,
                stop_sequence: cell_u32(h, row, "stop_sequence"@)->Some_0,
            },
        )
    } else {
        None
    }
}

fn decode_stop_time_row(header: &Vec<String>, row: &Vec<String>) -> (r: Option<StopTime>)
    ensures
        match r {
            Some(x) => stop_time_row_model(header.deep_view(), row.deep_view()) == Some(x@),
            None => stop_time_row_model(header.deep_view(), row.deep_view()) is None,
        },
{
    let trip_id = match get_cell_u64(header, row, "trip_id") {
        Some(v) => v,
        None => {
            return None;
        },
    };
    let arrival_time = match get_cell_day_time(header, row, "arrival_time") {
        Some(v) => v,
        None => {
            return None;
        },
    };
    let departure_time = match get_cell_day_time(header, row, "departure_time") {
        Some(v) => v,
        None => {
            return None;
        },
    };
    let stop_id = match get_cell_u64(header, row, "stop_id") {
        Some(v) => v,
        None => {
            return None;
        },
    };
    let stop_sequence = match get_cell_u32(header, row, "stop_sequence") {
        Some(v) => v,
        None => {
            return None;
        },
    };
    Some(StopTime { trip_id, arrival_time, departure_time, stop_id, stop_sequence })
}

pub open spec fn stop_times_model_from(h: Seq<Seq<char>>, rows: Seq<Seq<Seq<char>>>) -> Seq<
    StopTimeV,
>
    decreases rows.len(),
{
    if rows.len() == 0 {
        Seq::empty()
    } else {
        stop_times_model_from(h, rows.drop_last()) + match stop_time_row_model(h, rows.last()) {
            Some(x) => seq![x],
            None => Seq::empty(),
        }
    }
}

/// What decoding `stop_times.txt` yields.
pub open spec fn decode_stop_times_model(rows: Seq<Seq<Seq<char>>>) -> Seq<StopTimeV> {
    if rows.len() == 0 {
        Seq::empty()
    } else {
        stop_times_model_from(rows[0], rows.drop_first())
    }
}

pub fn decode_stop_times(rows: &Vec<Vec<String>>) -> (r: Vec<StopTime>)
    ensures
        r.deep_view() == decode_stop_times_model(rows.deep_view()),
{
    let ghost rows_dv = rows.deep_view();
    let mut out: Vec<StopTime> = Vec::new();
    if rows.len() == 0 {
        proof {
            assert(out.deep_view() =~= decode_stop_times_model(rows_dv));
        }
        return out;
    }
    let header = &rows[0];
    proof {
        assert(rows_dv[0] == header.deep_view());
    }
    let mut i: usize = 1;
    while i < rows.len()
        invariant
            1 <= i <= rows@.len(),
            rows_dv == rows.deep_view(),
            rows_dv.len() == rows@.len(),
            rows_dv[0] == header.deep_view(),
            out.deep_view() == stop_times_model_from(rows_dv[0], rows_dv.subrange(1, i as int)),
        decreases rows@.len() - i,
    {
        let ghost prefix = rows_dv.subrange(1, i as int);
        let ghost prefix1 = rows_dv.subrange(1, i + 1);
        proof {
            assert(prefix1.drop_last() =~= prefix);
            assert(prefix1.last() == rows_dv[i as int]);
            assert(rows_dv[i as int] == rows@[i as int].deep_view());
        }
        match decode_stop_time_row(header, &rows[i]) {
            Some(x) => {
                out.push(x);
                proof {
                    assert(out.deep_view() =~= stop_times_model_from(rows_dv[0], prefix1));
                }
            },
            None => {
                proof {
                    assert(out.deep_view() =~= stop_times_model_from(rows_dv[0], prefix1));
                }
            },
        }
        i = i + 1;
    }
    proof {
        assert(rows_dv.subrange(1, rows_dv.len() as int) =~= rows_dv.drop_first());
    }
    out
}

/// What a `frequencies.txt` row decodes to.
pub open spec fn frequency_row_model(h: Seq<Seq<char>>, row: Seq<Seq<char>>) -> Option<
    CSVFrequencyV,
> {
    if cell_u64(h, row, "trip_id"@) is Some && cell_day_time(h, row, "start_time"@) is Some
        && cell_day_time(h, row, "end_time"@) is Some && cell_u64(h, row, "headway_secs"@) is Some
        && cell_u8(h, row, "exact_times"@) is Some {
        Some(
            CSVFrequencyV {
                trip_id: cell_u64(h, row, "trip_id"@)->Some_0,
                start_time: cell_day_time(h, row, "start_time"@)->Some_0,
                end_time: cell_day_time(h, row, "end_time"@)->Some_0,
                headway_secs: cell_u64(h, row, "headway_secs"@)->Some_0,
                exact_times: cell_u8(h, row, "exact_times"@)->Some_0,
            },
        )
    } else {
        None
    }
}

fn decode_frequency_row(header: &Vec<String>, row: &Vec<String>) -> (r: Option<CSVFrequency>)
    ensures
        match r {
            Some(x) => frequency_row_model(header.deep_view(), row.deep_view()) == Some(x@),
            None => frequency_row_model(header.deep_view(), row.deep_view()) is None,
        },
{
    let trip_id = match get_cell_u64(header, row, "trip_id") {
        Some(v) => v,
        None => {
            return None;
        },
    };
    let start_time = match get_cell_day_time(header, row, "start_time") {
        Some(v) => v,
        None => {
            return None;
        },
    };
    let end_time = match get_cell_day_time(header, row, "end_time") {
        Some(v) => v,
        None => {
            return None;
        },
    };
    let headway_secs = match get_cell_u64(header, row, "headway_secs") {
        Some(v) => v,
        None => {
            return None;
        },
    };
    let exact_times = match get_cell_u8(header, row, "exact_times") {
        Some(v) => v,
        None => {
            return None;
        },
    };
    Some(CSVFrequency { trip_id, start_time, end_time, headway_secs, exact_times })
}

pub open spec fn frequencies_model_from(h: Seq<Seq<char>>, rows: Seq<Seq<Seq<char>>>) -> Seq<
    CSVFrequencyV,
>
    decreases rows.len(),
{
    if rows.len() == 0 {
        Seq::empty()
    } else {
        frequencies_model_from(h, rows.drop_last()) + match frequency_row_model(h, rows.last()) {
            Some(x) => seq![x],
            None => Seq::empty(),
        }
    }
}

/// What decoding `frequencies.txt` yields.
pub open spec fn decode_frequencies_model(rows: Seq<Seq<Seq<char>>>) -> Seq<CSVFrequencyV> {
    if rows.len() == 0 {
        Seq::empty()
    } else {
        frequencies_model_from(rows[0], rows.drop_first())
    }
}

pub fn decode_frequencies(rows: &Vec<Vec<String>>) -> (r: Vec<CSVFrequency>)
    ensures
        r.deep_view() == decode_frequencies_model(rows.deep_view()),
{
    let ghost rows_dv = rows.deep_view();
    let mut out: Vec<CSVFrequency> = Vec::new();
    if rows.len() == 0 {
        proof {
            assert(out.deep_view() =~= decode_frequencies_model(rows_dv));
        }
        return out;
    }
    let header = &rows[0];
    proof {
        assert(rows_dv[0] == header.deep_view());
    }
    let mut i: usize = 1;
    while i < rows.len()
        invariant
            1 <= i <= rows@.len(),
            rows_dv == rows.deep_view(),
            rows_dv.len() == rows@.len(),
            rows_dv[0] == header.deep_view(),
            out.deep_view() == frequencies_model_from(rows_dv[0], rows_dv.subrange(1, i as int)),
        decreases rows@.len() - i,
    {
        let ghost prefix = rows_dv.subrange(1, i as int);
        let ghost prefix1 = rows_dv.subrange(1, i + 1);
        proof {
            assert(prefix1.drop_last() =~= prefix);
            assert(prefix1.last() == rows_dv[i as int]);
            assert(rows_dv[i as int] == rows@[i as int].deep_view());
        }
        match decode_frequency_row(header, &rows[i]) {
            Some(x) => {
                out.push(x);
                proof {
                    assert(out.deep_view() =~= frequencies_model_from(rows_dv[0], prefix1));
                }
            },
            None => {
                proof {
                    assert(out.deep_view() =~= frequencies_model_from(rows_dv[0], prefix1));
                }
            },
        }
        i = i + 1;
    }
    proof {
        assert(rows_dv.subrange(1, rows_dv.len() as int) =~= rows_dv.drop_first());
    }
    out
}

} // verus!
