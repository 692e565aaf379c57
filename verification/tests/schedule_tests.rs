use std::io::Write;

use transit_rt::error::GenFeedError;
use transit_rt::loader::{build_routes, get_schedule};
use transit_rt::schedule::{RawRoute, RouteOutput, Stop, StopOutput, ThinRawRoute, VehicleStatuses};

fn mk_stop(id: u64, code: &str) -> Stop {
    Stop {
        code: code.to_string(),
        description: String::new(),
        id,
        location_type: String::new(),
        name: format!("stop {id}"),
        url: String::new(),
    }
}

fn mk_raw_route(id: u64, long_name: &str) -> RawRoute {
    RawRoute {
        agency_id: 643,
        color: String::new(),
        description: String::new(),
        id,
        is_active: true,
        long_name: long_name.to_string(),
        short_name: String::new(),
        text_color: String::new(),
        kind: "bus".to_string(),
        url: String::new(),
    }
}

fn zip_of(tables: &[(&str, &str)]) -> Vec<u8> {
    let mut writer = zip::ZipWriter::new(std::io::Cursor::new(Vec::new()));
    let options = zip::write::SimpleFileOptions::default()
        .compression_method(zip::CompressionMethod::Stored);
    for (name, body) in tables {
        writer.start_file(*name, options).expect("start zip member");
        writer.write_all(body.as_bytes()).expect("write zip member");
    }
    writer.finish().expect("finish zip").into_inner()
}

fn full_zip() -> Vec<u8> {
    zip_of(&[
        (
            "routes.txt",
            "route_id,route_short_name,route_long_name,route_desc,route_url,route_color,route_text_color,route_type\n\
             10,B,Blue Line,desc,url,0000FF,FFFFFF,3\n\
             bad,B,Broken,desc,url,,,3\n",
        ),
        (
            "stop_times.txt",
            "trip_id,arrival_time,departure_time,stop_id,stop_sequence\n\
             7,06:05:00,06:05:30,50,3\n\
             7,26:00:00,26:00:00,51,4\n\
             8,junk,06:00:00,50,1\n\
             8,06:00:00,06:00:00,50,4294967296\n",
        ),
        (
            "trips.txt",
            "trip_id,route_id,service_id,trip_headsign,trip_short_name,direction_id,shape_id,wheelchair_accessible,bikes_allowed,block_id,block_name\n\
             7,10,1,Downtown,D,0,sh,0,0,b,bn\n",
        ),
        (
            "stops.txt",
            "stop_id,stop_code,stop_name,stop_desc,stop_lat,stop_lon,stop_url,location_type\n\
             50,C1,Main St,desc,43.08,-77.67,url,0\n",
        ),
        (
            "frequencies.txt",
            "trip_id,start_time,end_time,headway_secs,exact_times\n\
             7,06:00:00,22:00:00,600,0\n",
        ),
    ])
}

fn live_inputs() -> (StopOutput, RouteOutput, VehicleStatuses) {
    (
        StopOutput {
            routes: vec![ThinRawRoute { id: 1, stops: vec![5] }],
            stops: vec![mk_stop(5, "C1"), mk_stop(6, "C2")],
        },
        RouteOutput { routes: vec![mk_raw_route(1, "Blue Line")], success: true },
        VehicleStatuses { arrivals: vec![], vehicles: vec![] },
    )
}

#[test]
fn schedule_loads_and_drops_bad_rows() {
    let (stops, routes, vehicle_statuses) = live_inputs();
    let s = get_schedule(&full_zip(), stops, routes, vehicle_statuses, false)
        .expect("schedule should load");
    assert_eq!(s.csv_routes.len(), 1);
    assert_eq!(s.csv_routes[0].route_id, 10);
    assert_eq!(s.csv_routes[0].route_long_name, "Blue Line");
    // The row with the malformed arrival_time and the row whose sequence
    // overflows its column type are dropped.
    assert_eq!(s.csv_stop_times.len(), 2);
    assert_eq!(s.csv_stop_times[0].arrival_time, ("06:05:00".to_string(), 21900));
    assert_eq!(s.csv_stop_times[0].departure_time, ("06:05:30".to_string(), 21930));
    assert_eq!(s.csv_stop_times[1].arrival_time.1, 26 * 3600);
    assert_eq!(s.csv_trips.len(), 1);
    assert_eq!(s.csv_trips[0].trip_id, 7);
    assert_eq!(s.csv_stops.len(), 1);
    assert_eq!(s.csv_stops[0].stop_code, "C1");
    assert_eq!(s.csv_stops[0].stop_lat, "43.08");
    assert_eq!(s.csv_frequencies.len(), 1);
    assert_eq!(s.csv_frequencies[0].headway_secs, 600);
    assert_eq!(s.csv_frequencies[0].start_time.1, 21600);
    // The live join copies only the listed stops, in order.
    assert_eq!(s.routes.len(), 1);
    assert_eq!(s.routes[0].long_name, "Blue Line");
    assert_eq!(s.routes[0].stops.len(), 1);
    assert_eq!(s.routes[0].stops[0].id, 5);
    assert!(!s.transit_workaround);
}

#[test]
fn loaded_schedule_correlates_arrivals() {
    let (stops, routes, mut vehicle_statuses) = live_inputs();
    vehicle_statuses.arrivals.push(transit_rt::schedule::Arrival {
        agency_id: 643,
        call_name: "12".to_string(),
        headsign: None,
        route_id: 1,
        stop_id: 5,
        timestamp: 0,
        trip_id: None,
        kind: "arrival".to_string(),
        vehicle_id: 99,
    });
    let s = get_schedule(&full_zip(), stops, routes, vehicle_statuses, false)
        .expect("schedule should load");
    // Trip 7 is frequency-based: window start 21600, headway 600; its
    // first stop-time row is at 21900, so an arrival at 23120 falls on
    // iteration 2 and the instance starting at 22800.
    let (desc, st) = s.find_trip_id_at(&s.arrivals[0], 23120).expect("should match");
    assert_eq!(desc.trip_id, Some("7".to_string()));
    assert_eq!(desc.route_id, Some("10".to_string()));
    assert_eq!(desc.start_time, Some("06:20:00".to_string()));
    assert_eq!(st.arrival_time.1, 21900);
}

#[test]
fn schedule_fails_on_missing_table() {
    let bytes = zip_of(&[("routes.txt", "route_id\n")]);
    let (stops, routes, vehicle_statuses) = live_inputs();
    let r = get_schedule(&bytes, stops, routes, vehicle_statuses, false);
    assert!(matches!(r, Err(GenFeedError::Zip)));
}

#[test]
fn schedule_fails_on_corrupt_archive() {
    let bytes = vec![1, 2, 3, 4];
    let (stops, routes, vehicle_statuses) = live_inputs();
    let r = get_schedule(&bytes, stops, routes, vehicle_statuses, false);
    assert!(matches!(r, Err(GenFeedError::Zip)));
}

#[test]
fn schedule_fails_on_inconsistent_live_routes() {
    let (mut stops, routes, vehicle_statuses) = live_inputs();
    stops.routes.clear();
    let r = get_schedule(&full_zip(), stops, routes, vehicle_statuses, false);
    assert!(matches!(r, Err(GenFeedError::MissingRoute(1))));
}

#[test]
fn route_join_keeps_stop_order_and_reports_first_missing() {
    let stops = vec![mk_stop(6, "C2"), mk_stop(5, "C1"), mk_stop(7, "C3")];
    let thins = vec![ThinRawRoute { id: 1, stops: vec![5, 7] }];
    let raws = vec![mk_raw_route(1, "Blue Line")];
    let routes = build_routes(&raws, &thins, &stops).expect("join should succeed");
    assert_eq!(routes.len(), 1);
    // Order follows the stops endpoint, not the thin route's list.
    let ids: Vec<u64> = routes[0].stops.iter().map(|s| s.id).collect();
    assert_eq!(ids, vec![5, 7]);

    let raws2 = vec![mk_raw_route(2, "Red Line"), mk_raw_route(3, "Green Line")];
    let err = match build_routes(&raws2, &thins, &stops) {
        Ok(_) => panic!("no thin route exists for either full route"),
        Err(id) => id,
    };
    assert_eq!(err, 2);
}
