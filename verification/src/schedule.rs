//! The schedule bundle: live routes, stops, vehicles and arrivals joined
//! with the five static GTFS tables, as the correlation engine reads them.
//!
//! Live data and static data use independent identifier namespaces; they
//! are joined by human-readable keys (route long name, stop code). The
//! keyed maps of the upstream JSON are held as vectors in their upstream
//! order; lookups take the first entry with a key.

use vstd::prelude::*;

verus! {

/// A live stop record (from the stops endpoint).
pub struct Stop {
    pub code: String,
    pub description: String,
    pub id: u64,
    pub location_type: String,
    pub name: String,
    pub url: String,
}

pub struct StopV {
    pub code: Seq<char>,
    pub description: Seq<char>,
    pub id: u64,
    pub location_type: Seq<char>,
    pub name: Seq<char>,
    pub url: Seq<char>,
}

impl View for Stop {
    type V = StopV;

    open spec fn view(&self) -> StopV {
        StopV {
            code: self.code@,
            description: self.description@,
            id: self.id,
            location_type: self.location_type@,
            name: self.name@,
            url: self.url@,
        }
    }
}

impl DeepView for Stop {
    type V = StopV;

    open spec fn deep_view(&self) -> StopV {
        self.view()
    }
}

impl Clone for Stop {
    fn clone(&self) -> (r: Self)
        ensures
            r@ == self@,
    {
        Stop {
            code: self.code.clone(),
            description: self.description.clone(),
            id: self.id,
            location_type: self.location_type.clone(),
            name: self.name.clone(),
            url: self.url.clone(),
        }
    }
}

/// A full live route record (from the routes endpoint).
pub struct RawRoute {
    pub agency_id: u64,
    pub color: String,
    pub description: String,
    pub id: u64,
    pub is_active: bool,
    pub long_name: String,
    pub short_name: String,
    pub text_color: String,
    pub kind: String,
    pub url: String,
}

pub struct RawRouteV {
    pub agency_id: u64,
    pub color: Seq<char>,
    pub description: Seq<char>,
    pub id: u64,
    pub is_active: bool,
    pub long_name: Seq<char>,
    pub short_name: Seq<char>,
    pub text_color: Seq<char>,
    pub kind: Seq<char>,
    pub url: Seq<char>,
}

impl View for RawRoute {
    type V = RawRouteV;

    open spec fn view(&self) -> RawRouteV {
        RawRouteV {
            agency_id: self.agency_id,
            color: self.color@,
            description: self.description@,
            id: self.id,
            is_active: self.is_active,
            long_name: self.long_name@,
            short_name: self.short_name@,
            text_color: self.text_color@,
            kind: self.kind@,
            url: self.url@,
        }
    }
}

impl DeepView for RawRoute {
    type V = RawRouteV;

    open spec fn deep_view(&self) -> RawRouteV {
        self.view()
    }
}

/// A thin live route record (from the stops endpoint): the route's stop
/// ids in order.
pub struct ThinRawRoute {
    pub id: u64,
    pub stops: Vec<u64>,
}

pub struct ThinRawRouteV {
    pub id: u64,
    pub stops: Seq<u64>,
}

impl View for ThinRawRoute {
    type V = ThinRawRouteV;

    open spec fn view(&self) -> ThinRawRouteV {
        ThinRawRouteV { id: self.id, stops: self.stops@ }
    }
}

impl DeepView for ThinRawRoute {
    type V = ThinRawRouteV;

    open spec fn deep_view(&self) -> ThinRawRouteV {
        self.view()
    }
}

/// A live route as the engine reads it: the long name joining it to the
/// static table, and its stops in the stops endpoint's order.
pub struct Route {
    pub long_name: String,
    pub id: u64,
    pub stops: Vec<Stop>,
}

pub struct RouteV {
    pub long_name: Seq<char>,
    pub id: u64,
    pub stops: Seq<StopV>,
}

impl View for Route {
    type V = RouteV;

    open spec fn view(&self) -> RouteV {
        RouteV { long_name: self.long_name@, id: self.id, stops: self.stops.deep_view() }
    }
}

impl DeepView for Route {
    type V = RouteV;

    open spec fn deep_view(&self) -> RouteV {
        self.view()
    }
}

/// The stops endpoint's payload.
pub struct StopOutput {
    pub routes: Vec<ThinRawRoute>,
    pub stops: Vec<Stop>,
}

/// The routes endpoint's payload.
pub struct RouteOutput {
    pub routes: Vec<RawRoute>,
    pub success: bool,
}

/// A static route row (`routes.txt`).
pub struct CSVRoute {
    pub route_id: u64,
    pub route_short_name: String,
    pub route_long_name: String,
    pub route_desc: String,
    pub route_url: String,
    pub route_color: String,
    pub route_text_color: String,
    pub route_type: u64,
}

pub struct CSVRouteV {
    pub route_id: u64,
    pub route_short_name: Seq<char>,
    pub route_long_name: Seq<char>,
    pub route_desc: Seq<char>,
    pub route_url: Seq<char>,
    pub route_color: Seq<char>,
    pub route_text_color: Seq<char>,
    pub route_type: u64,
}

impl View for CSVRoute {
    type V = CSVRouteV;

    open spec fn view(&self) -> CSVRouteV {
        CSVRouteV {
            route_id: self.route_id,
            route_short_name: self.route_short_name@,
            route_long_name: self.route_long_name@,
            route_desc: self.route_desc@,
            route_url: self.route_url@,
            route_color: self.route_color@,
            route_text_color: self.route_text_color@,
            route_type: self.route_type,
        }
    }
}

impl DeepView for CSVRoute {
    type V = CSVRouteV;

    open spec fn deep_view(&self) -> CSVRouteV {
        self.view()
    }
}

/// A static trip row (`trips.txt`).
pub struct CSVTrip {
    pub trip_id: u64,
    pub route_id: u64,
    pub service_id: u64,
    pub trip_headsign: String,
    pub trip_short_name: String,
    pub direction_id: u64,
    pub shape_id: String,
    pub wheelchair_accessible: u64,
    pub bikes_allowed: u64,
    pub block_id: String,
    pub block_name: String,
}

pub struct CSVTripV {
    pub trip_id: u64,
    pub route_id: u64,
    pub service_id: u64,
    pub trip_headsign: Seq<char>,
    pub trip_short_name: Seq<char>,
    pub direction_id: u64,
    pub shape_id: Seq<char>,
    pub wheelchair_accessible: u64,
    pub bikes_allowed: u64,
    pub block_id: Seq<char>,
    pub block_name: Seq<char>,
}

impl View for CSVTrip {
    type V = CSVTripV;

    open spec fn view(&self) -> CSVTripV {
        CSVTripV {
            trip_id: self.trip_id,
            route_id: self.route_id,
            service_id: self.service_id,
            trip_headsign: self.trip_headsign@,
            trip_short_name: self.trip_short_name@,
            direction_id: self.direction_id,
            shape_id: self.shape_id@,
            wheelchair_accessible: self.wheelchair_accessible,
            bikes_allowed: self.bikes_allowed,
            block_id: self.block_id@,
            block_name: self.block_name@,
        }
    }
}

impl DeepView for CSVTrip {
    type V = CSVTripV;

    open spec fn deep_view(&self) -> CSVTripV {
        self.view()
    }
}

/// A static stop row (`stops.txt`). The position fields are carried as
/// their raw text.
pub struct CSVStop {
    pub stop_id: u64,
    pub stop_code: String,
    pub stop_name: String,
    pub stop_desc: String,
    pub stop_lat: String,
    pub stop_lon: String,
    pub stop_url: String,
    pub location_type: u64,
}

pub struct CSVStopV {
    pub stop_id: u64,
    pub stop_code: Seq<char>,
    pub stop_name: Seq<char>,
    pub stop_desc: Seq<char>,
    pub stop_lat: Seq<char>,
    pub stop_lon: Seq<char>,
    pub stop_url: Seq<char>,
    pub location_type: u64,
}

impl View for CSVStop {
    type V = CSVStopV;

    open spec fn view(&self) -> CSVStopV {
        CSVStopV {
            stop_id: self.stop_id,
            stop_code: self.stop_code@,
            stop_name: self.stop_name@,
            stop_desc: self.stop_desc@,
            stop_lat: self.stop_lat@,
            stop_lon: self.stop_lon@,
            stop_url: self.stop_url@,
            location_type: self.location_type,
        }
    }
}

impl DeepView for CSVStop {
    type V = CSVStopV;

    open spec fn deep_view(&self) -> CSVStopV {
        self.view()
    }
}

/// A static stop-time row (`stop_times.txt`). Day-times carry the
/// raw text alongside the parsed value.
pub struct StopTime {
    pub trip_id: u64,
    pub arrival_time: (String, u64),
    pub departure_time: (String, u64),
    pub stop_id: u64,
    pub stop_sequence: u32,
}

pub struct StopTimeV {
    pub trip_id: u64,
    pub arrival_time: (Seq<char>, u64),
    pub departure_time: (Seq<char>, u64),
    pub stop_id: u64,
    pub stop_sequence: u32,
}

impl View for StopTime {
    type V = StopTimeV;

    open spec fn view(&self) -> StopTimeV {
        StopTimeV {
            trip_id: self.trip_id,
            arrival_time: (self.arrival_time.0@, self.arrival_time.1),
            departure_time: (self.departure_time.0@, self.departure_time.1),
            stop_id: self.stop_id,
            stop_sequence: self.stop_sequence,
        }
    }
}

impl DeepView for StopTime {
    type V = StopTimeV;

    open spec fn deep_view(&self) -> StopTimeV {
        self.view()
    }
}

impl Clone for StopTime {
    fn clone(&self) -> (r: Self)
        ensures
            r@ == self@,
    {
        StopTime {
            trip_id: self.trip_id,
            arrival_time: (self.arrival_time.0.clone(), self.arrival_time.1),
            departure_time: (self.departure_time.0.clone(), self.departure_time.1),
            stop_id: self.stop_id,
            stop_sequence: self.stop_sequence,
        }
    }
}

/// A static frequency row (`frequencies.txt`). A trip indexed here is
/// frequency-based; its pattern repeats every `headway_secs` over the
/// window from `start_time` to `end_time`.
pub struct CSVFrequency {
    pub trip_id: u64,
    pub start_time: (String, u64),
    pub end_time: (String, u64),
    pub headway_secs: u64,
    pub exact_times: u8,
}

pub struct CSVFrequencyV {
    pub trip_id: u64,
    pub start_time: (Seq<char>, u64),
    pub end_time: (Seq<char>, u64),
    pub headway_secs: u64,
    pub exact_times: u8,
}

impl View for CSVFrequency {
    type V = CSVFrequencyV;

    open spec fn view(&self) -> CSVFrequencyV {
        CSVFrequencyV {
            trip_id: self.trip_id,
            start_time: (self.start_time.0@, self.start_time.1),
            end_time: (self.end_time.0@, self.end_time.1),
            headway_secs: self.headway_secs,
            exact_times: self.exact_times,
        }
    }
}

impl DeepView for CSVFrequency {
    type V = CSVFrequencyV;

    open spec fn deep_view(&self) -> CSVFrequencyV {
        self.view()
    }
}

/// A live arrival prediction.
pub struct Arrival {
    pub agency_id: u64,
    pub call_name: String,
    pub headsign: Option<String>,
    pub route_id: u64,
    pub stop_id: u64,
    pub timestamp: i64,
    pub trip_id: Option<u64>,
    pub kind: String,
    pub vehicle_id: u64,
}

pub struct ArrivalV {
    pub agency_id: u64,
    pub call_name: Seq<char>,
    pub headsign: Option<Seq<char>>,
    pub route_id: u64,
    pub stop_id: u64,
    pub timestamp: i64,
    pub trip_id: Option<u64>,
    pub kind: Seq<char>,
    pub vehicle_id: u64,
}

impl View for Arrival {
    type V = ArrivalV;

    open spec fn view(&self) -> ArrivalV {
        ArrivalV {
            agency_id: self.agency_id,
            call_name: self.call_name@,
            headsign: match self.headsign {
                Some(h) => Some(h@),
                None => None,
            },
            route_id: self.route_id,
            stop_id: self.stop_id,
            timestamp: self.timestamp,
            trip_id: self.trip_id,
            kind: self.kind@,
            vehicle_id: self.vehicle_id,
        }
    }
}

impl DeepView for Arrival {
    type V = ArrivalV;

    open spec fn deep_view(&self) -> ArrivalV {
        self.view()
    }
}

/// A live vehicle record. Its `timestamp` is in milliseconds, unlike all
/// other timestamps.
pub struct Vehicle {
    pub id: u64,
    pub call_name: String,
    pub current_stop_id: Option<u64>,
    pub next_stop: Option<u64>,
    pub off_route: bool,
    pub route_id: u64,
    pub segment_id: Option<u64>,
    pub stop_pattern_id: u64,
    pub timestamp: u64,
    pub trip_id: u64,
}

pub struct VehicleV {
    pub id: u64,
    pub call_name: Seq<char>,
    pub current_stop_id: Option<u64>,
    pub next_stop: Option<u64>,
    pub off_route: bool,
    pub route_id: u64,
    pub segment_id: Option<u64>,
    pub stop_pattern_id: u64,
    pub timestamp: u64,
    pub trip_id: u64,
}

impl View for Vehicle {
    type V = VehicleV;

    open spec fn view(&self) -> VehicleV {
        VehicleV {
            id: self.id,
            call_name: self.call_name@,
            current_stop_id: self.current_stop_id,
            next_stop: self.next_stop,
            off_route: self.off_route,
            route_id: self.route_id,
            segment_id: self.segment_id,
            stop_pattern_id: self.stop_pattern_id,
            timestamp: self.timestamp,
            trip_id: self.trip_id,
        }
    }
}

impl DeepView for Vehicle {
    type V = VehicleV;

    open spec fn deep_view(&self) -> VehicleV {
        self.view()
    }
}

/// The vehicle-statuses endpoint's payload.
pub struct VehicleStatuses {
    pub arrivals: Vec<Arrival>,
    pub vehicles: Vec<Vehicle>,
}

/// The schedule bundle the correlation engine works on. The vectors keep
/// their source order: static tables in CSV file order (first match
/// wins), live lists in upstream order.
pub struct Schedule {
    pub routes: Vec<Route>,
    pub csv_routes: Vec<CSVRoute>,
    pub csv_stop_times: Vec<StopTime>,
    pub csv_trips: Vec<CSVTrip>,
    pub csv_stops: Vec<CSVStop>,
    pub csv_frequencies: Vec<CSVFrequency>,
    pub arrivals: Vec<Arrival>,
    pub vehicles: Vec<Vehicle>,
    pub transit_workaround: bool,
}

} // verus!
