use chrono::TimeZone;
use transit_rt::engine::{nearby, within_buffer, ScheduleRelationship};
use transit_rt::schedule::{
    Arrival, CSVFrequency, CSVRoute, CSVStop, CSVTrip, Route, Schedule, Stop, StopTime,
};

fn mk_stop(id: u64, code: &str) -> Stop {
    Stop {
        code: code.to_string(),
        description: String::new(),
        id,
        location_type: String::new(),
        name: format!("stop {id}"),
        url: String::new(),
    }
}

fn mk_csv_stop(stop_id: u64, code: &str) -> CSVStop {
    CSVStop {
        stop_id,
        stop_code: code.to_string(),
        stop_name: String::new(),
        stop_desc: String::new(),
        stop_lat: "0".to_string(),
        stop_lon: "0".to_string(),
        stop_url: String::new(),
        location_type: 0,
    }
}

fn mk_csv_route(route_id: u64, long_name: &str) -> CSVRoute {
    CSVRoute {
        route_id,
        route_short_name: String::new(),
        route_long_name: long_name.to_string(),
        route_desc: String::new(),
        route_url: String::new(),
        route_color: String::new(),
        route_text_color: String::new(),
        route_type: 3,
    }
}

fn mk_trip(trip_id: u64, route_id: u64) -> CSVTrip {
    CSVTrip {
        trip_id,
        route_id,
        service_id: 1,
        trip_headsign: String::new(),
        trip_short_name: String::new(),
        direction_id: 0,
        shape_id: String::new(),
        wheelchair_accessible: 0,
        bikes_allowed: 0,
        block_id: String::new(),
        block_name: String::new(),
    }
}

fn mk_stop_time(trip_id: u64, arrival: u64, stop_id: u64, seq: u32) -> StopTime {
    StopTime {
        trip_id,
        arrival_time: (format!("{arrival}"), arrival),
        departure_time: (format!("{arrival}"), arrival),
        stop_id,
        stop_sequence: seq,
    }
}

fn mk_arrival(route_id: u64, stop_id: u64, vehicle_id: u64, timestamp: i64) -> Arrival {
    Arrival {
        agency_id: 643,
        call_name: "12".to_string(),
        headsign: None,
        route_id,
        stop_id,
        timestamp,
        trip_id: None,
        kind: "arrival".to_string(),
        vehicle_id,
    }
}

fn base_schedule(workaround: bool) -> Schedule {
    Schedule {
        routes: vec![
            Route { long_name: "Blue Line".to_string(), id: 1, stops: vec![mk_stop(5, "C1")] },
        ],
        csv_routes: vec![mk_csv_route(10, "Blue Line")],
        csv_stop_times: vec![],
        csv_trips: vec![mk_trip(7, 10)],
        csv_stops: vec![mk_csv_stop(50, "C1")],
        csv_frequencies: vec![],
        arrivals: vec![],
        vehicles: vec![],
        transit_workaround: workaround,
    }
}

#[test]
fn frequency_match_synthesizes_start_time() {
    let mut s = base_schedule(false);
    s.csv_frequencies.push(CSVFrequency {
        trip_id: 7,
        start_time: ("06:00:00".to_string(), 21600),
        end_time: ("22:00:00".to_string(), 79200),
        headway_secs: 600,
        exact_times: 0,
    });
    s.csv_stop_times.push(mk_stop_time(7, 21900, 50, 3));
    let arrival = mk_arrival(1, 5, 99, 0);
    let (desc, st) = s.find_trip_id_at(&arrival, 23120).expect("should match");
    assert_eq!(desc.trip_id, Some("7".to_string()));
    assert_eq!(desc.route_id, Some("10".to_string()));
    assert_eq!(desc.start_time, Some("06:20:00".to_string()));
    assert_eq!(desc.schedule_relationship, Some(ScheduleRelationship::Scheduled));
    assert_eq!(desc.direction_id, None);
    assert_eq!(desc.start_date, None);
    assert_eq!(st.trip_id, 7);
    assert_eq!(st.stop_sequence, 3);
}

#[test]
fn frequency_match_workaround_encodes_start_into_id() {
    let mut s = base_schedule(true);
    s.csv_frequencies.push(CSVFrequency {
        trip_id: 7,
        start_time: ("06:00:00".to_string(), 21600),
        end_time: ("22:00:00".to_string(), 79200),
        headway_secs: 600,
        exact_times: 0,
    });
    s.csv_stop_times.push(mk_stop_time(7, 21900, 50, 3));
    let arrival = mk_arrival(1, 5, 99, 0);
    let (desc, _) = s.find_trip_id_at(&arrival, 23120).expect("should match");
    assert_eq!(desc.trip_id, Some("7_22800".to_string()));
    assert_eq!(desc.start_time, None);
    assert_eq!(desc.schedule_relationship, Some(ScheduleRelationship::Scheduled));
}

#[test]
fn frequency_match_ignores_stop_identity() {
    let mut s = base_schedule(false);
    s.csv_frequencies.push(CSVFrequency {
        trip_id: 7,
        start_time: ("06:00:00".to_string(), 21600),
        end_time: ("22:00:00".to_string(), 79200),
        headway_secs: 600,
        exact_times: 0,
    });
    // The row's stop differs from the resolved stop; the frequency branch
    // matches on the trip alone.
    s.csv_stop_times.push(mk_stop_time(7, 21900, 777, 3));
    let arrival = mk_arrival(1, 5, 99, 0);
    assert!(s.find_trip_id_at(&arrival, 23120).is_some());
}

#[test]
fn frequency_match_outside_buffered_window_fails() {
    let mut s = base_schedule(false);
    s.csv_frequencies.push(CSVFrequency {
        trip_id: 7,
        start_time: ("06:00:00".to_string(), 21600),
        end_time: ("07:00:00".to_string(), 25200),
        headway_secs: 600,
        exact_times: 0,
    });
    s.csv_stop_times.push(mk_stop_time(7, 21900, 50, 3));
    let arrival = mk_arrival(1, 5, 99, 0);
    // 25200 + 600 = 25800 is the open upper bound.
    assert!(s.find_trip_id_at(&arrival, 25799).is_some());
    assert!(s.find_trip_id_at(&arrival, 25800).is_none());
    // 21600 - 600 = 21000 is the open lower bound.
    assert!(s.find_trip_id_at(&arrival, 21001).is_some());
    assert!(s.find_trip_id_at(&arrival, 21000).is_none());
}

#[test]
fn fixed_match_within_ten_minutes() {
    let mut s = base_schedule(false);
    s.csv_stop_times.push(mk_stop_time(7, 32400, 50, 4));
    let arrival = mk_arrival(1, 5, 99, 0);
    let (desc, st) = s.find_trip_id_at(&arrival, 32700).expect("five minutes late matches");
    assert_eq!(desc.trip_id, Some("7".to_string()));
    assert_eq!(desc.route_id, Some("10".to_string()));
    assert_eq!(desc.start_time, None);
    assert_eq!(desc.schedule_relationship, None);
    assert_eq!(st.stop_sequence, 4);
}

#[test]
fn fixed_match_outside_ten_minutes_fails() {
    let mut s = base_schedule(false);
    s.csv_stop_times.push(mk_stop_time(7, 32400, 50, 4));
    let arrival = mk_arrival(1, 5, 99, 0);
    assert!(s.find_trip_id_at(&arrival, 33100).is_none());
}

#[test]
fn fixed_match_requires_resolved_stop() {
    let mut s = base_schedule(false);
    s.csv_stop_times.push(mk_stop_time(7, 32400, 777, 4));
    let arrival = mk_arrival(1, 5, 99, 0);
    assert!(s.find_trip_id_at(&arrival, 32700).is_none());
}

#[test]
fn first_trip_in_csv_order_wins() {
    let mut s = base_schedule(false);
    s.csv_trips = vec![mk_trip(7, 10), mk_trip(8, 10)];
    s.csv_stop_times = vec![mk_stop_time(8, 32400, 50, 1), mk_stop_time(7, 32400, 50, 2)];
    let arrival = mk_arrival(1, 5, 99, 0);
    let (desc, st) = s.find_trip_id_at(&arrival, 32400).expect("should match");
    // Trip 7 comes first in trips.txt even though trip 8's row comes
    // first in stop_times.txt.
    assert_eq!(desc.trip_id, Some("7".to_string()));
    assert_eq!(st.stop_sequence, 2);
}

#[test]
fn unresolved_links_yield_no_match() {
    let mut s = base_schedule(false);
    s.csv_stop_times.push(mk_stop_time(7, 32400, 50, 4));
    let unknown_route = mk_arrival(2, 5, 99, 0);
    assert!(s.find_trip_id_at(&unknown_route, 32400).is_none());
    let unknown_stop = mk_arrival(1, 6, 99, 0);
    assert!(s.find_trip_id_at(&unknown_stop, 32400).is_none());
    let mut no_static_route = base_schedule(false);
    no_static_route.csv_stop_times.push(mk_stop_time(7, 32400, 50, 4));
    no_static_route.csv_routes[0].route_long_name = "Red Line".to_string();
    assert!(no_static_route.find_trip_id_at(&mk_arrival(1, 5, 99, 0), 32400).is_none());
    let mut no_static_stop = base_schedule(false);
    no_static_stop.csv_stop_times.push(mk_stop_time(7, 32400, 50, 4));
    no_static_stop.csv_stops[0].stop_code = "C2".to_string();
    assert!(no_static_stop.find_trip_id_at(&mk_arrival(1, 5, 99, 0), 32400).is_none());
}

#[test]
fn find_trip_id_places_timestamp_on_service_day() {
    let mut s = base_schedule(false);
    s.csv_stop_times.push(mk_stop_time(7, 32400, 50, 4));
    // 09:05:00 New York is service-day second 32700, five minutes after
    // the scheduled 32400.
    let ts = chrono_tz::America::New_York
        .with_ymd_and_hms(2024, 3, 15, 9, 5, 0)
        .unwrap()
        .timestamp();
    let arrival = mk_arrival(1, 5, 99, ts);
    assert!(s.find_trip_id(&arrival).is_some());
}

#[test]
fn window_and_nearby_gates() {
    assert!(within_buffer(21600, 21001, 79200));
    assert!(!within_buffer(21600, 21000, 79200));
    assert!(within_buffer(100, 0, 200));
    assert!(!within_buffer(700, 99, 800));
    assert!(nearby(32700, ("09:00:00".to_string(), 32400)));
    assert!(!nearby(33000, ("09:00:00".to_string(), 32400)));
    assert!(nearby(32400, ("09:05:00".to_string(), 32700)));
    assert!(!nearby(31800, ("09:00:00".to_string(), 32400)));
}
