//! Building the feed's entities from correlated arrivals: one trip
//! update per matched arrival, one vehicle position when the vehicle is
//! known, then deduplication by entity id (first occurrence wins), and
//! the assembly of the whole feed message.

use vstd::prelude::*;

use crate::engine::{find_trip_for_arrival_model, ScheduleRelationship, TripDescriptorV};
use crate::feed::{
    FeedEntity, FeedEntityV, FeedHeader, FeedHeaderV, FeedMessage, Incrementality, StopTimeEvent,
    StopTimeUpdate, StopTimeUpdateV, TripUpdate, TripUpdateV, VehicleDescriptor,
    VehicleDescriptorV, VehiclePosition, VehiclePositionV, VehicleStopStatus,
};
use crate::numbers::{dec_digits, i64_to_string, signed_digits, u64_to_string};
use crate::schedule::{Arrival, ArrivalV, Schedule, StopTimeV, Vehicle, VehicleV};
use crate::tables::str_equal;
use crate::time::format_day_time;
use crate::util::{find_index, lemma_find_index, lemma_find_index_of};

verus! {

/// Index of the first live vehicle with this id.
pub open spec fn vehicle_index(vehicles: Seq<VehicleV>, id: u64) -> Option<int> {
    find_index(vehicles, |v: VehicleV| v.id == id)
}

/// The vehicle descriptor of an arrival's vehicle: the arrival's vehicle
/// id as text, labelled with the vehicle's call name.
pub open spec fn vehicle_descriptor_of(a: ArrivalV, v: VehicleV) -> VehicleDescriptorV {
    VehicleDescriptorV {
        id: Some(dec_digits(a.vehicle_id as int)),
        label: Some(v.call_name),
        license_plate: None,
    }
}

/// The one stop-time event of a trip update: the arrival's own
/// timestamp, with a fixed uncertainty of a minute.
pub open spec fn stop_time_event_of(a: ArrivalV) -> StopTimeEvent {
    StopTimeEvent { delay: None, time: Some(a.timestamp), uncertainty: Some(60) }
}

/// The trip-update entity of a correlated arrival. Its id joins the
/// matched trip id with the arrival's timestamp; its timestamp is the
/// vehicle's (in seconds) when the vehicle is known, else the caller's
/// clock reading.
pub open spec fn trip_entity_of(
    s: &Schedule,
    a: ArrivalV,
    d: TripDescriptorV,
    st: StopTimeV,
    now: u64,
) -> FeedEntityV {
    let veh = vehicle_index(s.vehicles.deep_view(), a.vehicle_id);
    FeedEntityV {
        id: dec_digits(st.trip_id as int) + seq!['-'] + signed_digits(a.timestamp as int),
        is_deleted: None,
        trip_update: Some(
            TripUpdateV {
                trip: d,
                vehicle: match veh {
                    Some(vi) => Some(vehicle_descriptor_of(a, s.vehicles.deep_view()[vi])),
                    None => None,
                },
                stop_time_update: seq![
                    StopTimeUpdateV {
                        stop_sequence: Some(st.stop_sequence),
                        stop_id: Some(dec_digits(st.stop_id as int)),
                        arrival: Some(stop_time_event_of(a)),
                        departure: Some(stop_time_event_of(a)),
                        schedule_relationship: Some(ScheduleRelationship::Scheduled),
                    },
                ],
                timestamp: Some(
                    match veh {
                        Some(vi) => s.vehicles.deep_view()[vi].timestamp / 1000,
                        None => now,
                    },
                ),
                delay: None,
            },
        ),
        vehicle: None,
        alert: None,
    }
}

/// The vehicle-position entity of a correlated arrival whose vehicle is
/// known (`vi` indexes the vehicle).
pub open spec fn vehicle_entity_of(
    s: &Schedule,
    a: ArrivalV,
    d: TripDescriptorV,
    st: StopTimeV,
    vi: int,
) -> FeedEntityV {
    let v = s.vehicles.deep_view()[vi];
    FeedEntityV {
        id: "vehicle-"@ + dec_digits(v.id as int),
        is_deleted: None,
        trip_update: None,
        vehicle: Some(
            VehiclePositionV {
                trip: Some(d),
                vehicle: Some(vehicle_descriptor_of(a, v)),
                vehicle_id: v.id,
                current_stop_sequence: Some(st.stop_sequence),
                stop_id: Some(dec_digits(st.stop_id as int)),
                current_status: Some(VehicleStopStatus::InTransitTo),
                timestamp: Some(v.timestamp / 1000),
            },
        ),
        alert: None,
    }
}

/// The entities an arrival contributes: nothing when it does not
/// correlate; its trip update, then its vehicle position when the
/// vehicle is known.
pub open spec fn entities_of_arrival(s: &Schedule, a: ArrivalV, now: u64) -> Seq<FeedEntityV> {
    match find_trip_for_arrival_model(s, a) {
        None => Seq::empty(),
        Some(m) => {
            let trip_e = trip_entity_of(s, a, m.0, m.1, now);
            match vehicle_index(s.vehicles.deep_view(), a.vehicle_id) {
                Some(vi) => seq![trip_e, vehicle_entity_of(s, a, m.0, m.1, vi)],
                None => seq![trip_e],
            }
        },
    }
}

/// The entities of the first `n` arrivals, in arrival order.
pub open spec fn entities_up_to(s: &Schedule, now: u64, n: int) -> Seq<FeedEntityV>
    decreases n,
{
    if n <= 0 {
        Seq::empty()
    } else {
        entities_up_to(s, now, n - 1) + entities_of_arrival(
            s,
            s.arrivals.deep_view()[n - 1],
            now,
        )
    }
}

/// All entities the arrivals contribute, before deduplication.
pub open spec fn arrival_entities_model(s: &Schedule, now: u64) -> Seq<FeedEntityV> {
    entities_up_to(s, now, s.arrivals.deep_view().len() as int)
}

/// Whether some entity of `es` bears `id`.
pub open spec fn seen_id(es: Seq<FeedEntityV>, id: Seq<char>) -> bool {
    exists|j: int| 0 <= j < es.len() && es[j].id == id
}

/// Deduplication by entity id, first occurrence kept, order preserved.
pub open spec fn dedup_model(es: Seq<FeedEntityV>) -> Seq<FeedEntityV>
    decreases es.len(),
{
    if es.len() == 0 {
        Seq::empty()
    } else {
        let prev = dedup_model(es.drop_last());
        if seen_id(es.drop_last(), es.last().id) {
            prev
        } else {
            prev.push(es.last())
        }
    }
}

proof fn lemma_seen_push(es: Seq<FeedEntityV>, x: FeedEntityV)
    ensures
        forall|id: Seq<char>| seen_id(es.push(x), id) == (seen_id(es, id) || x.id == id),
{
    assert forall|id: Seq<char>|
        seen_id(es.push(x), id) == (seen_id(es, id) || x.id == id) by {
        if seen_id(es, id) {
            let j = choose|j: int| 0 <= j < es.len() && es[j].id == id;
            assert(es.push(x)[j] == es[j]);
            assert(seen_id(es.push(x), id));
        }
        if x.id == id {
            assert(es.push(x)[es.len() as int] == x);
            assert(seen_id(es.push(x), id));
        }
        if seen_id(es.push(x), id) {
            let j = choose|j: int| 0 <= j < es.push(x).len() && es.push(x)[j].id == id;
            if j < es.len() {
                assert(es[j].id == id);
                assert(seen_id(es, id));
            } else {
                assert(es.push(x)[j] == x);
            }
        }
    }
}

/// Deduplication keeps exactly the ids of its input.
pub proof fn lemma_dedup_ids(es: Seq<FeedEntityV>)
    ensures
        forall|id: Seq<char>| seen_id(dedup_model(es), id) == seen_id(es, id),
    decreases es.len(),
{
    if es.len() > 0 {
        let pr = es.drop_last();
        let last = es.last();
        lemma_dedup_ids(pr);
        assert(pr.push(last) =~= es);
        lemma_seen_push(pr, last);
        if seen_id(pr, last.id) {
            assert forall|id: Seq<char>|
                seen_id(dedup_model(es), id) == seen_id(es, id) by {
                assert(seen_id(es, id) == (seen_id(pr, id) || last.id == id));
            }
        } else {
            lemma_seen_push(dedup_model(pr), last);
            assert forall|id: Seq<char>|
                seen_id(dedup_model(es), id) == seen_id(es, id) by {
                assert(seen_id(es, id) == (seen_id(pr, id) || last.id == id));
                assert(seen_id(dedup_model(es), id) == (seen_id(dedup_model(pr), id) || last.id
                    == id));
            }
        }
    }
}

/// After deduplication every id occurs once.
pub proof fn lemma_dedup_unique(es: Seq<FeedEntityV>)
    ensures
        forall|i: int, j: int|
            #![trigger dedup_model(es)[i], dedup_model(es)[j]]
            0 <= i < j < dedup_model(es).len() ==> dedup_model(es)[i].id != dedup_model(es)[j].id,
    decreases es.len(),
{
    if es.len() > 0 {
        let pr = es.drop_last();
        let last = es.last();
        lemma_dedup_unique(pr);
        if !seen_id(pr, last.id) {
            lemma_dedup_ids(pr);
            let d = dedup_model(es);
            assert(d == dedup_model(pr).push(last));
            assert forall|i: int, j: int|
                0 <= i < j < d.len() implies d[i].id != d[j].id by {
                if j < d.len() - 1 {
                    assert(d[i] == dedup_model(pr)[i]);
                    assert(d[j] == dedup_model(pr)[j]);
                } else {
                    assert(d[j] == last);
                    assert(d[i] == dedup_model(pr)[i]);
                    assert(seen_id(dedup_model(pr), d[i].id));
                    assert(seen_id(pr, d[i].id));
                }
            }
        }
    }
}

/// Every deduplicated entity is an entity of the input.
pub proof fn lemma_dedup_members(es: Seq<FeedEntityV>)
    ensures
        forall|i: int|
            #![trigger dedup_model(es)[i]]
            0 <= i < dedup_model(es).len() ==> exists|j: int|
                0 <= j < es.len() && dedup_model(es)[i] == #[trigger] es[j],
    decreases es.len(),
{
    if es.len() > 0 {
        let pr = es.drop_last();
        let last = es.last();
        lemma_dedup_members(pr);
        let d = dedup_model(es);
        assert forall|i: int|
            #![trigger d[i]]
            0 <= i < d.len() implies exists|j: int| 0 <= j < es.len() && d[i] == #[trigger] es[j] by {
            if i < dedup_model(pr).len() {
                assert(d[i] == dedup_model(pr)[i]);
                let j = choose|j: int| 0 <= j < pr.len() && dedup_model(pr)[i] == pr[j];
                assert(es[j] == pr[j]);
            } else {
                assert(d[i] == last);
                assert(es[es.len() - 1] == last);
            }
        }
    }
}

/// Whether an entity bearing this id was already emitted.
fn contains_entity_id(out: &Vec<FeedEntity>, id: &String) -> (r: bool)
    ensures
        r == seen_id(out.deep_view(), id@),
{
    let ghost dv = out.deep_view();
    let mut i: usize = 0;
    while i < out.len()
        invariant
            i <= out@.len(),
            dv == out.deep_view(),
            dv.len() == out@.len(),
            forall|j: int| 0 <= j < i ==> dv[j].id != id@,
        decreases out@.len() - i,
    {
        proof {
            assert(dv[i as int] == out@[i as int]@);
        }
        if str_equal(out[i].id.as_str(), id.as_str()) {
            proof {
                assert(dv[i as int].id == id@);
            }
            return true;
        }
        i = i + 1;
    }
    proof {
        if seen_id(dv, id@) {
            let j = choose|j: int| 0 <= j < dv.len() && dv[j].id == id@;
            assert(false);
        }
    }
    false
}

/// Append an entity unless its id was already emitted.
fn push_unique(out: &mut Vec<FeedEntity>, e: FeedEntity, Ghost(processed): Ghost<Seq<FeedEntityV>>)
    requires
        old(out).deep_view() == dedup_model(processed),
    ensures
        final(out).deep_view() == dedup_model(processed.push(e@)),
{
    let ghost ev = e@;
    let seen = contains_entity_id(out, &e.id);
    proof {
        lemma_dedup_ids(processed);
        assert(processed.push(ev).drop_last() =~= processed);
        assert(processed.push(ev).last() == ev);
        assert(seen == seen_id(processed, ev.id));
    }
    if !seen {
        let ghost prev = out.deep_view();
        out.push(e);
        proof {
            assert(out.deep_view() =~= prev.push(ev));
        }
    }
}

fn vehicle_by_id(vehicles: &Vec<Vehicle>, id: u64) -> (r: Option<usize>)
    ensures
        match r {
            Some(i) => i < vehicles@.len() && vehicle_index(vehicles.deep_view(), id) == Some(
                i as int,
            ),
            None => vehicle_index(vehicles.deep_view(), id) is None,
        },
{
    let ghost p = |v: VehicleV| v.id == id;
    let ghost dv = vehicles.deep_view();
    let mut i: usize = 0;
    while i < vehicles.len()
        invariant
            i <= vehicles@.len(),
            dv == vehicles.deep_view(),
            dv.len() == vehicles@.len(),
            p == (|v: VehicleV| v.id == id),
            forall|j: int| 0 <= j < i ==> !p(#[trigger] dv[j]),
        decreases vehicles@.len() - i,
    {
        proof {
            assert(dv[i as int] == vehicles@[i as int]@);
        }
        if vehicles[i].id == id {
            proof {
                lemma_find_index_of(dv, p, i as int);
            }
            return Some(i);
        }
        i = i + 1;
    }
    proof {
        lemma_find_index(dv, p);
    }
    None
}

fn build_vehicle_descriptor(a: &Arrival, v: &Vehicle) -> (r: VehicleDescriptor)
    ensures
        r@ == vehicle_descriptor_of(a@, v@),
{
    VehicleDescriptor {
        id: Some(u64_to_string(a.vehicle_id)),
        label: Some(v.call_name.clone()),
        license_plate: None,
    }
}

/// Correlate each arrival and append its entities, deduplicating by id
/// against everything emitted so far.
fn append_arrival_entities(
    out: &mut Vec<FeedEntity>,
    s: &Schedule,
    now: u64,
    Ghost(prefix): Ghost<Seq<FeedEntityV>>,
)
    requires
        old(out).deep_view() == dedup_model(prefix),
    ensures
        final(out).deep_view() == dedup_model(prefix + arrival_entities_model(s, now)),
{
    let ghost adv = s.arrivals.deep_view();
    let mut i: usize = 0;
    while i < s.arrivals.len()
        invariant
            i <= s.arrivals@.len(),
            adv == s.arrivals.deep_view(),
            adv.len() == s.arrivals@.len(),
            out.deep_view() == dedup_model(prefix + entities_up_to(s, now, i as int)),
        decreases s.arrivals@.len() - i,
    {
        let a = &s.arrivals[i];
        proof {
            assert(adv[i as int] == s.arrivals@[i as int]@);
        }
        let ghost before = prefix + entities_up_to(s, now, i as int);
        let ghost av = adv[i as int];
        match s.find_trip_id(a) {
            None => {
                proof {
                    assert(entities_of_arrival(s, av, now) =~= Seq::<FeedEntityV>::empty());
                    assert(prefix + entities_up_to(s, now, i as int + 1) =~= before);
                }
            },
            Some(found) => {
                let d = found.0;
                let st = found.1;
                let veh = vehicle_by_id(&s.vehicles, a.vehicle_id);
                let event = StopTimeEvent {
                    delay: None,
                    time: Some(a.timestamp),
                    uncertainty: Some(60),
                };
                let vdesc: Option<VehicleDescriptor> = match veh {
                    Some(vi) => {
                        proof {
                            assert(s.vehicles.deep_view()[vi as int] == s.vehicles@[vi as int]@);
                        }
                        Some(build_vehicle_descriptor(a, &s.vehicles[vi]))
                    },
                    None => None,
                };
                let ts: u64 = match veh {
                    Some(vi) => s.vehicles[vi].timestamp / 1000,
                    None => now,
                };
                let id = u64_to_string(st.trip_id).concat("-").concat(
                    i64_to_string(a.timestamp).as_str(),
                );
                proof {
                    reveal_strlit("-");
                    assert(id@ =~= dec_digits(st@.trip_id as int) + seq!['-'] + signed_digits(
                        a@.timestamp as int,
                    ));
                }
                let mut stus: Vec<StopTimeUpdate> = Vec::new();
                stus.push(
                    StopTimeUpdate {
                        stop_sequence: Some(st.stop_sequence),
                        stop_id: Some(u64_to_string(st.stop_id)),
                        arrival: Some(event),
                        departure: Some(event),
                        schedule_relationship: Some(ScheduleRelationship::Scheduled),
                    },
                );
                let trip_e = FeedEntity {
                    id,
                    is_deleted: None,
                    trip_update: Some(
                        TripUpdate {
                            trip: d.clone(),
                            vehicle: vdesc,
                            stop_time_update: stus,
                            timestamp: Some(ts),
                            delay: None,
                        },
                    ),
                    vehicle: None,
                    alert: None,
                };
                let ghost trip_ev = trip_e@;
                proof {
                    assert(trip_e.trip_update->Some_0.stop_time_update.deep_view()
                        =~= trip_entity_of(s, av, d@, st@, now).trip_update->Some_0.stop_time_update);
                    assert(trip_ev == trip_entity_of(s, av, d@, st@, now));
                }
                push_unique(out, trip_e, Ghost(before));
                match veh {
                    Some(vi) => {
                        let v = &s.vehicles[vi];
                        proof {
                            assert(s.vehicles.deep_view()[vi as int] == s.vehicles@[vi as int]@);
                        }
                        let vid = String::from_str("vehicle-").concat(
                            u64_to_string(v.id).as_str(),
                        );
                        let veh_e = FeedEntity {
                            id: vid,
                            is_deleted: None,
                            trip_update: None,
                            vehicle: Some(
                                VehiclePosition {
                                    trip: Some(d),
                                    vehicle: Some(build_vehicle_descriptor(a, v)),
                                    vehicle_id: v.id,
                                    current_stop_sequence: Some(st.stop_sequence),
                                    stop_id: Some(u64_to_string(st.stop_id)),
                                    current_status: Some(VehicleStopStatus::InTransitTo),
                                    timestamp: Some(v.timestamp / 1000),
                                },
                            ),
                            alert: None,
                        };
                        let ghost veh_ev = veh_e@;
                        proof {
                            assert(veh_ev == vehicle_entity_of(s, av, d@, st@, vi as int));
                        }
                        push_unique(out, veh_e, Ghost(before.push(trip_ev)));
                        proof {
                            assert(entities_of_arrival(s, av, now) =~= seq![trip_ev, veh_ev]);
                            assert(prefix + entities_up_to(s, now, i as int + 1) =~= before.push(
                                trip_ev,
                            ).push(veh_ev));
                        }
                    },
                    None => {
                        proof {
                            assert(entities_of_arrival(s, av, now) =~= seq![trip_ev]);
                            assert(prefix + entities_up_to(s, now, i as int + 1) =~= before.push(
                                trip_ev,
                            ));
                        }
                    },
                }
            },
        }
        i = i + 1;
    }
}

/// The shape every trip-update entity keeps: exactly one stop-time
/// update whose arrival and departure events are equal; and a start time
/// that is absent in workaround mode, and otherwise absent or a
/// formatted day-time.
pub open spec fn trip_update_well_formed(e: FeedEntityV, workaround: bool) -> bool {
    match e.trip_update {
        Some(tu) => {
            &&& tu.stop_time_update.len() == 1
            &&& tu.stop_time_update[0].arrival == tu.stop_time_update[0].departure
            &&& (workaround ==> tu.trip.start_time is None)
            &&& (!workaround ==> (tu.trip.start_time is None || exists|secs: int|
                0 <= secs && tu.trip.start_time == Some(#[trigger] format_day_time(secs))))
        },
        None => true,
    }
}

/// The start-time rule of a matched descriptor: absent in workaround
/// mode; otherwise absent (fixed trip) or a formatted day-time
/// (frequency-based trip).
proof fn lemma_descriptor_start_time(s: &Schedule, ti: int, si: int, arr: u64)
    requires
        0 <= ti < s.csv_trips.deep_view().len(),
        0 <= si < s.csv_stop_times.deep_view().len(),
    ensures
        ({
            let d = crate::engine::match_descriptor(s, ti, si, arr);
            &&& (s.transit_workaround ==> d.start_time is None)
            &&& (!s.transit_workaround ==> (d.start_time is None || exists|secs: int|
                0 <= secs && d.start_time == Some(#[trigger] format_day_time(secs))))
        }),
{
    let trips = s.csv_trips.deep_view();
    match crate::engine::frequency_index(s.csv_frequencies.deep_view(), trips[ti].trip_id) {
        None => {},
        Some(fi) => {
            crate::util::lemma_find_index(
                s.csv_frequencies.deep_view(),
                |f: crate::schedule::CSVFrequencyV| f.trip_id == trips[ti].trip_id,
            );
            let f = s.csv_frequencies.deep_view()[fi];
            let st = s.csv_stop_times.deep_view()[si];
            let secs = crate::engine::frequency_start_secs(f, st, arr);
            if f.headway_secs != 0 {
                let hi = f.headway_secs as int;
                let it = crate::engine::trip_iteration(arr as int, st.arrival_time.1 as int, hi);
                if 2 * (arr as int - st.arrival_time.1 as int) >= hi {
                    vstd::arithmetic::div_mod::lemma_div_pos_is_pos(
                        2 * (arr as int - st.arrival_time.1 as int) + hi,
                        2 * hi,
                    );
                }
                assert(it >= 0);
                assert(hi * it >= 0) by (nonlinear_arith)
                    requires
                        hi >= 0,
                        it >= 0,
                ;
            }
            assert(secs >= 0);
            if !s.transit_workaround {
                let d = crate::engine::match_descriptor(s, ti, si, arr);
                assert(d.start_time == Some(format_day_time(secs)));
            }
        },
    }
}

/// Every entity an arrival contributes keeps the trip-update shape.
proof fn lemma_arrival_entities_wf(s: &Schedule, a: ArrivalV, now: u64)
    ensures
        forall|k: int|
            #![trigger entities_of_arrival(s, a, now)[k]]
            0 <= k < entities_of_arrival(s, a, now).len() ==> trip_update_well_formed(
                entities_of_arrival(s, a, now)[k],
                s.transit_workaround,
            ),
{
    let es = entities_of_arrival(s, a, now);
    match find_trip_for_arrival_model(s, a) {
        None => {},
        Some(m) => {
            match crate::time::arrival_seconds_spec(a.timestamp) {
                None => {
                    assert(false);
                },
                Some(arr) => {
                    match crate::engine::resolved_ids(s, a) {
                        None => {
                            assert(false);
                        },
                        Some(ids) => {
                            match crate::engine::first_pair_from(s, ids.0, ids.1, arr, 0) {
                                None => {
                                    assert(false);
                                },
                                Some(pair) => {
                                    crate::engine::lemma_first_pair_is_first(
                                        s,
                                        ids.0,
                                        ids.1,
                                        arr,
                                        0,
                                    );
                                    lemma_descriptor_start_time(s, pair.0, pair.1, arr);
                                    assert(m.0 == crate::engine::match_descriptor(
                                        s,
                                        pair.0,
                                        pair.1,
                                        arr,
                                    ));
                                    assert(trip_update_well_formed(es[0], s.transit_workaround));
                                    if es.len() > 1 {
                                        assert(es[1].trip_update is None);
                                    }
                                },
                            }
                        },
                    }
                },
            }
        },
    }
}

/// Every entity of the first `n` arrivals keeps the trip-update shape.
proof fn lemma_entities_up_to_wf(s: &Schedule, now: u64, n: int)
    ensures
        forall|k: int|
            #![trigger entities_up_to(s, now, n)[k]]
            0 <= k < entities_up_to(s, now, n).len() ==> trip_update_well_formed(
                entities_up_to(s, now, n)[k],
                s.transit_workaround,
            ),
    decreases n,
{
    if n > 0 {
        lemma_entities_up_to_wf(s, now, n - 1);
        lemma_arrival_entities_wf(s, s.arrivals.deep_view()[n - 1], now);
        let prev = entities_up_to(s, now, n - 1);
        let chunk = entities_of_arrival(s, s.arrivals.deep_view()[n - 1], now);
        assert forall|k: int|
            #![trigger entities_up_to(s, now, n)[k]]
            0 <= k < entities_up_to(s, now, n).len() implies trip_update_well_formed(
            entities_up_to(s, now, n)[k],
            s.transit_workaround,
        ) by {
            if k < prev.len() {
                assert(entities_up_to(s, now, n)[k] == prev[k]);
            } else {
                assert(entities_up_to(s, now, n)[k] == chunk[k - prev.len()]);
            }
        }
    }
}

/// Build the trip-update and vehicle-position entities of all correlated
/// arrivals, deduplicated by entity id, first occurrence kept.
///
/// Besides the exact contents, the result keeps: every id unique, and
/// every trip-update entity in the well-formed shape (one stop-time
/// update, equal arrival and departure, and the workaround start-time
/// rule).
pub fn get_trip_arrivals(schedule: &Schedule, now: u64) -> (r: Vec<FeedEntity>)
    ensures
        r.deep_view() == dedup_model(arrival_entities_model(schedule, now)),
        forall|i: int, j: int|
            #![trigger r.deep_view()[i], r.deep_view()[j]]
            0 <= i < j < r.deep_view().len() ==> r.deep_view()[i].id != r.deep_view()[j].id,
        forall|i: int|
            #![trigger r.deep_view()[i]]
            0 <= i < r.deep_view().len() ==> trip_update_well_formed(
                r.deep_view()[i],
                schedule.transit_workaround,
            ),
{
    let mut out: Vec<FeedEntity> = Vec::new();
    proof {
        assert(out.deep_view() =~= dedup_model(Seq::<FeedEntityV>::empty()));
    }
    append_arrival_entities(&mut out, schedule, now, Ghost(Seq::empty()));
    let ghost model = arrival_entities_model(schedule, now);
    proof {
        assert(Seq::<FeedEntityV>::empty() + model =~= model);
        lemma_dedup_unique(model);
        lemma_dedup_members(model);
        lemma_entities_up_to_wf(schedule, now, schedule.arrivals.deep_view().len() as int);
        assert forall|i: int|
            #![trigger out.deep_view()[i]]
            0 <= i < out.deep_view().len() implies trip_update_well_formed(
            out.deep_view()[i],
            schedule.transit_workaround,
        ) by {
            let j = choose|j: int| 0 <= j < model.len() && out.deep_view()[i] == #[trigger] model[j];
            assert(trip_update_well_formed(model[j], schedule.transit_workaround));
        }
    }
    out
}

/// Assemble the feed message: the header, then the alert entities
/// followed by the arrival-derived entities, the whole list deduplicated
/// by entity id, first occurrence kept.
///
/// Every id in the result is unique, and every trip-update entity keeps
/// the well-formed shape.
pub fn get_feed(alert: Vec<FeedEntity>, schedule: &Schedule, now: u64) -> (r: FeedMessage)
    requires
        forall|j: int|
            #![trigger alert.deep_view()[j]]
            0 <= j < alert.deep_view().len() ==> alert.deep_view()[j].trip_update is None,
    ensures
        r.header@ == (FeedHeaderV {
            gtfs_realtime_version: "2.0"@,
            incrementality: Some(Incrementality::FullDataset),
            timestamp: Some(now),
        }),
        r.entity.deep_view() == dedup_model(
            alert.deep_view() + arrival_entities_model(schedule, now),
        ),
        forall|i: int, j: int|
            #![trigger r.entity.deep_view()[i], r.entity.deep_view()[j]]
            0 <= i < j < r.entity.deep_view().len() ==> r.entity.deep_view()[i].id
                != r.entity.deep_view()[j].id,
        forall|i: int|
            #![trigger r.entity.deep_view()[i]]
            0 <= i < r.entity.deep_view().len() ==> trip_update_well_formed(
                r.entity.deep_view()[i],
                schedule.transit_workaround,
            ),
{
    let ghost alerts_dv = alert.deep_view();
    let ghost full_orig = alert@;
    let mut alerts = alert;
    let mut entity: Vec<FeedEntity> = Vec::new();
    proof {
        assert(entity.deep_view() =~= dedup_model(Seq::<FeedEntityV>::empty()));
        assert(alerts_dv.take(0) =~= Seq::<FeedEntityV>::empty());
    }
    let total = alerts.len();
    proof {
        assert(full_orig.len() == total as int);
    }
    let mut k: usize = 0;
    while alerts.len() > 0
        invariant
            full_orig.len() <= usize::MAX,
            k + alerts@.len() == full_orig.len(),
            alerts_dv.len() == full_orig.len(),
            forall|i: int| 0 <= i < full_orig.len() ==> alerts_dv[i] == #[trigger] full_orig[i]@,
            alerts@ == full_orig.skip(k as int),
            entity.deep_view() == dedup_model(alerts_dv.take(k as int)),
        decreases alerts@.len(),
    {
        let e = alerts.remove(0);
        proof {
            assert(e == full_orig[k as int]);
            assert(alerts_dv.take(k as int + 1).drop_last() =~= alerts_dv.take(k as int));
            assert(alerts_dv.take(k as int + 1) =~= alerts_dv.take(k as int).push(e@));
            assert(alerts@ =~= full_orig.skip(k as int + 1));
        }
        push_unique(&mut entity, e, Ghost(alerts_dv.take(k as int)));
        k = k + 1;
    }
    proof {
        assert(alerts_dv.take(k as int) =~= alerts_dv);
    }
    append_arrival_entities(&mut entity, schedule, now, Ghost(alerts_dv));
    let ghost combined = alerts_dv + arrival_entities_model(schedule, now);
    proof {
        lemma_dedup_unique(combined);
        lemma_dedup_members(combined);
        lemma_entities_up_to_wf(schedule, now, schedule.arrivals.deep_view().len() as int);
        assert forall|i: int|
            #![trigger entity.deep_view()[i]]
            0 <= i < entity.deep_view().len() implies trip_update_well_formed(
            entity.deep_view()[i],
            schedule.transit_workaround,
        ) by {
            let j = choose|j: int|
                0 <= j < combined.len() && entity.deep_view()[i] == #[trigger] combined[j];
            if j < alerts_dv.len() {
                assert(combined[j] == alerts_dv[j]);
            } else {
                assert(combined[j] == arrival_entities_model(schedule, now)[j - alerts_dv.len()]);
            }
        }
    }
    FeedMessage {
        header: FeedHeader {
            gtfs_realtime_version: String::from_str("2.0"),
            incrementality: Some(Incrementality::FullDataset),
            timestamp: Some(now),
        },
        entity,
    }
}

} // verus!
