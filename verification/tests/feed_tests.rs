use chrono::TimeZone;

use transit_rt::alerts::{get_alerts, Announcement};
use transit_rt::arrivals::{get_feed, get_trip_arrivals};
use transit_rt::feed::{Cause, Effect, Incrementality, VehicleStopStatus};
use transit_rt::schedule::{
    Arrival, CSVRoute, CSVStop, CSVTrip, Route, Schedule, Stop, StopTime, Vehicle,
};
use transit_rt::traits::Translate;

fn mk_stop(id: u64, code: &str) -> Stop {
    Stop {
        code: code.to_string(),
        description: String::new(),
        id,
        location_type: String::new(),
        name: format!("stop {id}"),
        url: String::new(),
    }
}

fn mk_csv_stop(stop_id: u64, code: &str) -> CSVStop {
    CSVStop {
        stop_id,
        stop_code: code.to_string(),
        stop_name: String::new(),
        stop_desc: String::new(),
        stop_lat: "0".to_string(),
        stop_lon: "0".to_string(),
        stop_url: String::new(),
        location_type: 0,
    }
}

fn mk_csv_route(route_id: u64, long_name: &str) -> CSVRoute {
    CSVRoute {
        route_id,
        route_short_name: String::new(),
        route_long_name: long_name.to_string(),
        route_desc: String::new(),
        route_url: String::new(),
        route_color: String::new(),
        route_text_color: String::new(),
        route_type: 3,
    }
}

fn mk_trip(trip_id: u64, route_id: u64) -> CSVTrip {
    CSVTrip {
        trip_id,
        route_id,
        service_id: 1,
        trip_headsign: String::new(),
        trip_short_name: String::new(),
        direction_id: 0,
        shape_id: String::new(),
        wheelchair_accessible: 0,
        bikes_allowed: 0,
        block_id: String::new(),
        block_name: String::new(),
    }
}

fn mk_vehicle(id: u64, call_name: &str, timestamp_millis: u64) -> Vehicle {
    Vehicle {
        id,
        call_name: call_name.to_string(),
        current_stop_id: None,
        next_stop: None,
        off_route: false,
        route_id: 1,
        segment_id: None,
        stop_pattern_id: 0,
        timestamp: timestamp_millis,
        trip_id: 0,
    }
}

fn mk_arrival(vehicle_id: u64, timestamp: i64) -> Arrival {
    Arrival {
        agency_id: 643,
        call_name: "12".to_string(),
        headsign: None,
        route_id: 1,
        stop_id: 5,
        timestamp,
        trip_id: None,
        kind: "arrival".to_string(),
        vehicle_id,
    }
}

/// An epoch second whose New York civil time is 09:05:00, service-day
/// second 32700 — five minutes after the scheduled 32400.
fn matching_timestamp() -> i64 {
    chrono_tz::America::New_York.with_ymd_and_hms(2024, 3, 15, 9, 5, 0).unwrap().timestamp()
}

fn matched_schedule(arrivals: Vec<Arrival>, vehicles: Vec<Vehicle>) -> Schedule {
    Schedule {
        routes: vec![
            Route { long_name: "Blue Line".to_string(), id: 1, stops: vec![mk_stop(5, "C1")] },
        ],
        csv_routes: vec![mk_csv_route(10, "Blue Line")],
        csv_stop_times: vec![StopTime {
            trip_id: 7,
            arrival_time: ("09:00:00".to_string(), 32400),
            departure_time: ("09:00:00".to_string(), 32400),
            stop_id: 50,
            stop_sequence: 4,
        }],
        csv_trips: vec![mk_trip(7, 10)],
        csv_stops: vec![mk_csv_stop(50, "C1")],
        csv_frequencies: vec![],
        arrivals,
        vehicles,
        transit_workaround: false,
    }
}

#[test]
fn unknown_vehicle_yields_trip_update_only() {
    let ts = matching_timestamp();
    let s = matched_schedule(vec![mk_arrival(99, ts)], vec![]);
    let entities = get_trip_arrivals(&s, 424242);
    assert_eq!(entities.len(), 1);
    let e = &entities[0];
    assert_eq!(e.id, format!("7-{ts}"));
    assert!(e.vehicle.is_none());
    assert!(e.alert.is_none());
    let tu = e.trip_update.as_ref().expect("a trip update");
    // With no known vehicle the entity timestamp is the caller's clock.
    assert_eq!(tu.timestamp, Some(424242));
    assert!(tu.vehicle.is_none());
    assert_eq!(tu.stop_time_update.len(), 1);
    let stu = &tu.stop_time_update[0];
    assert_eq!(stu.stop_sequence, Some(4));
    assert_eq!(stu.stop_id, Some("50".to_string()));
    let arr = stu.arrival.as_ref().expect("arrival event");
    let dep = stu.departure.as_ref().expect("departure event");
    assert_eq!(arr, dep);
    assert_eq!(arr.time, Some(ts));
    assert_eq!(arr.uncertainty, Some(60));
    assert_eq!(arr.delay, None);
}

#[test]
fn repeated_vehicle_is_deduplicated() {
    let ts = matching_timestamp();
    let s = matched_schedule(
        vec![mk_arrival(99, ts), mk_arrival(99, ts + 30)],
        vec![mk_vehicle(99, "Bus 12", 1_700_000_000_123)],
    );
    let entities = get_trip_arrivals(&s, 424242);
    // Two trip updates (distinct per-arrival ids) and one vehicle
    // position: the second vehicle entity is dropped by id.
    assert_eq!(entities.len(), 3);
    assert_eq!(entities[0].id, format!("7-{ts}"));
    assert_eq!(entities[1].id, "vehicle-99");
    assert_eq!(entities[2].id, format!("7-{}", ts + 30));
    let tu = entities[0].trip_update.as_ref().expect("a trip update");
    // With a known vehicle the entity timestamp is the vehicle's, in
    // seconds.
    assert_eq!(tu.timestamp, Some(1_700_000_000));
    let vd = tu.vehicle.as_ref().expect("a vehicle descriptor");
    assert_eq!(vd.id, Some("99".to_string()));
    assert_eq!(vd.label, Some("Bus 12".to_string()));
    assert_eq!(vd.license_plate, None);
    let vp = entities[1].vehicle.as_ref().expect("a vehicle position");
    assert_eq!(vp.vehicle_id, 99);
    assert_eq!(vp.timestamp, Some(1_700_000_000));
    assert_eq!(vp.current_status, Some(VehicleStopStatus::InTransitTo));
    assert_eq!(vp.current_stop_sequence, Some(4));
    assert_eq!(vp.stop_id, Some("50".to_string()));
    assert!(vp.trip.is_some());
}

#[test]
fn uncorrelated_arrivals_are_dropped() {
    let ts = matching_timestamp();
    let mut bad = mk_arrival(99, ts);
    bad.route_id = 2;
    let s = matched_schedule(vec![bad], vec![]);
    let entities = get_trip_arrivals(&s, 424242);
    assert!(entities.is_empty());
}

#[test]
fn feed_concatenates_alerts_and_arrivals() {
    let ts = matching_timestamp();
    let s = matched_schedule(
        vec![mk_arrival(99, ts)],
        vec![mk_vehicle(99, "Bus 12", 1_700_000_000_123)],
    );
    let alerts = get_alerts(
        &vec![Announcement {
            agency_id: 643,
            date: "2024-03-15".to_string(),
            has_content: true,
            html: "<p>detour</p>".to_string(),
            id: 1234,
            start_at: "2024-03-15T00:00:00-04:00".to_string(),
            title: "Detour".to_string(),
            urgent: false,
        }],
        643,
    );
    let feed = get_feed(alerts, &s, 777);
    assert_eq!(feed.header.gtfs_realtime_version, "2.0");
    assert_eq!(feed.header.incrementality, Some(Incrementality::FullDataset));
    assert_eq!(feed.header.timestamp, Some(777));
    assert_eq!(feed.entity.len(), 3);
    assert_eq!(feed.entity[0].id, "1234");
    assert!(feed.entity[0].alert.is_some());
    assert_eq!(feed.entity[1].id, format!("7-{ts}"));
    assert_eq!(feed.entity[2].id, "vehicle-99");
    // Every id in the output is unique.
    for i in 0..feed.entity.len() {
        for j in (i + 1)..feed.entity.len() {
            assert_ne!(feed.entity[i].id, feed.entity[j].id);
        }
    }
}

#[test]
fn alert_entities_carry_announcement_fields() {
    let anns = vec![
        Announcement {
            agency_id: 643,
            date: "2024-03-15".to_string(),
            has_content: true,
            html: "<p>detour</p>".to_string(),
            id: 1234,
            start_at: "2024-03-15T00:00:00Z".to_string(),
            title: "Detour".to_string(),
            urgent: false,
        },
        Announcement {
            agency_id: 643,
            date: String::new(),
            has_content: false,
            html: String::new(),
            id: 77,
            start_at: "not a date".to_string(),
            title: "Notice".to_string(),
            urgent: true,
        },
    ];
    let entities = get_alerts(&anns, 643);
    assert_eq!(entities.len(), 2);
    let first = entities[0].alert.as_ref().expect("an alert");
    let expected = chrono::DateTime::parse_from_rfc3339("2024-03-15T00:00:00Z")
        .unwrap()
        .timestamp() as u64;
    assert_eq!(entities[0].id, "1234");
    assert!(entities[0].trip_update.is_none());
    assert!(entities[0].vehicle.is_none());
    assert_eq!(first.active_period.len(), 1);
    assert_eq!(first.active_period[0].start, Some(expected));
    assert_eq!(first.active_period[0].end, None);
    assert_eq!(first.informed_entity.len(), 1);
    assert_eq!(first.informed_entity[0].agency_id, Some("643".to_string()));
    assert_eq!(first.cause, Some(Cause::UnknownCause));
    assert_eq!(first.effect, Some(Effect::UnknownEffect));
    assert_eq!(first.header_text.as_ref().unwrap().translation[0].text, "Detour");
    assert_eq!(first.header_text.as_ref().unwrap().translation[0].language, None);
    assert_eq!(first.description_text.as_ref().unwrap().translation[0].text, "<p>detour</p>");
    // An unparseable start date leaves the period open.
    let second = entities[1].alert.as_ref().expect("an alert");
    assert_eq!(second.active_period[0].start, None);
    assert_eq!(entities[1].id, "77");
}

#[test]
fn text_wraps_as_untagged_translation() {
    let t = "Detour".to_string().into_translation();
    assert_eq!(t.translation.len(), 1);
    assert_eq!(t.translation[0].text, "Detour");
    assert_eq!(t.translation[0].language, None);
}
