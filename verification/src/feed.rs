//! The feed entity model: trip updates, vehicle positions, alerts, and
//! the feed message around them, as plain values. (Floating-point
//! payload — positions and speeds — is attached by the caller when the
//! feed is serialized; the entities here carry the vehicle id to join
//! on.)

use vstd::prelude::*;

use crate::engine::{ScheduleRelationship, TripDescriptor, TripDescriptorV};

verus! {

/// A predicted arrival or departure event.
#[derive(Clone, Copy, PartialEq, Eq, Structural, Debug)]
pub struct StopTimeEvent {
    pub delay: Option<i32>,
    pub time: Option<i64>,
    pub uncertainty: Option<i32>,
}

impl View for StopTimeEvent {
    type V = StopTimeEvent;

    open spec fn view(&self) -> StopTimeEvent {
        *self
    }
}

impl DeepView for StopTimeEvent {
    type V = StopTimeEvent;

    open spec fn deep_view(&self) -> StopTimeEvent {
        self.view()
    }
}

/// The single stop-time update of a trip-update entity.
pub struct StopTimeUpdate {
    pub stop_sequence: Option<u32>,
    pub stop_id: Option<String>,
    pub arrival: Option<StopTimeEvent>,
    pub departure: Option<StopTimeEvent>,
    pub schedule_relationship: Option<ScheduleRelationship>,
}

pub struct StopTimeUpdateV {
    pub stop_sequence: Option<u32>,
    pub stop_id: Option<Seq<char>>,
    pub arrival: Option<StopTimeEvent>,
    pub departure: Option<StopTimeEvent>,
    pub schedule_relationship: Option<ScheduleRelationship>,
}

impl View for StopTimeUpdate {
    type V = StopTimeUpdateV;

    open spec fn view(&self) -> StopTimeUpdateV {
        StopTimeUpdateV {
            stop_sequence: self.stop_sequence,
            stop_id: match self.stop_id {
                Some(s) => Some(s@),
                None => None,
            },
            arrival: self.arrival,
            departure: self.departure,
            schedule_relationship: self.schedule_relationship,
        }
    }
}

impl DeepView for StopTimeUpdate {
    type V = StopTimeUpdateV;

    open spec fn deep_view(&self) -> StopTimeUpdateV {
        self.view()
    }
}

/// The vehicle a trip update or position refers to.
pub struct VehicleDescriptor {
    pub id: Option<String>,
    pub label: Option<String>,
    pub license_plate: Option<String>,
}

pub struct VehicleDescriptorV {
    pub id: Option<Seq<char>>,
    pub label: Option<Seq<char>>,
    pub license_plate: Option<Seq<char>>,
}

impl View for VehicleDescriptor {
    type V = VehicleDescriptorV;

    open spec fn view(&self) -> VehicleDescriptorV {
        VehicleDescriptorV {
            id: match self.id {
                Some(s) => Some(s@),
                None => None,
            },
            label: match self.label {
                Some(s) => Some(s@),
                None => None,
            },
            license_plate: match self.license_plate {
                Some(s) => Some(s@),
                None => None,
            },
        }
    }
}

impl DeepView for VehicleDescriptor {
    type V = VehicleDescriptorV;

    open spec fn deep_view(&self) -> VehicleDescriptorV {
        self.view()
    }
}

/// A trip-update entity's payload.
pub struct TripUpdate {
    pub trip: TripDescriptor,
    pub vehicle: Option<VehicleDescriptor>,
    pub stop_time_update: Vec<StopTimeUpdate>,
    pub timestamp: Option<u64>,
    pub delay: Option<i32>,
}

pub struct TripUpdateV {
    pub trip: TripDescriptorV,
    pub vehicle: Option<VehicleDescriptorV>,
    pub stop_time_update: Seq<StopTimeUpdateV>,
    pub timestamp: Option<u64>,
    pub delay: Option<i32>,
}

impl View for TripUpdate {
    type V = TripUpdateV;

    open spec fn view(&self) -> TripUpdateV {
        TripUpdateV {
            trip: self.trip@,
            vehicle: match self.vehicle {
                Some(v) => Some(v@),
                None => None,
            },
            stop_time_update: self.stop_time_update.deep_view(),
            timestamp: self.timestamp,
            delay: self.delay,
        }
    }
}

impl DeepView for TripUpdate {
    type V = TripUpdateV;

    open spec fn deep_view(&self) -> TripUpdateV {
        self.view()
    }
}

/// Where a vehicle stands relative to its next stop.
#[derive(Clone, Copy, PartialEq, Eq, Structural, Debug)]
pub enum VehicleStopStatus {
    InTransitTo,
}

/// A vehicle-position entity's payload. `vehicle_id` names the live
/// vehicle record whose position, bearing and speed the serializer
/// attaches.
pub struct VehiclePosition {
    pub trip: Option<TripDescriptor>,
    pub vehicle: Option<VehicleDescriptor>,
    pub vehicle_id: u64,
    pub current_stop_sequence: Option<u32>,
    pub stop_id: Option<String>,
    pub current_status: Option<VehicleStopStatus>,
    pub timestamp: Option<u64>,
}

pub struct VehiclePositionV {
    pub trip: Option<TripDescriptorV>,
    pub vehicle: Option<VehicleDescriptorV>,
    pub vehicle_id: u64,
    pub current_stop_sequence: Option<u32>,
    pub stop_id: Option<Seq<char>>,
    pub current_status: Option<VehicleStopStatus>,
    pub timestamp: Option<u64>,
}

impl View for VehiclePosition {
    type V = VehiclePositionV;

    open spec fn view(&self) -> VehiclePositionV {
        VehiclePositionV {
            trip: match self.trip {
                Some(t) => Some(t@),
                None => None,
            },
            vehicle: match self.vehicle {
                Some(v) => Some(v@),
                None => None,
            },
            vehicle_id: self.vehicle_id,
            current_stop_sequence: self.current_stop_sequence,
            stop_id: match self.stop_id {
                Some(s) => Some(s@),
                None => None,
            },
            current_status: self.current_status,
            timestamp: self.timestamp,
        }
    }
}

impl DeepView for VehiclePosition {
    type V = VehiclePositionV;

    open spec fn deep_view(&self) -> VehiclePositionV {
        self.view()
    }
}

/// A span of time an alert is active for.
#[derive(Clone, Copy, PartialEq, Eq, Structural, Debug)]
pub struct TimeRange {
    pub start: Option<u64>,
    pub end: Option<u64>,
}

impl View for TimeRange {
    type V = TimeRange;

    open spec fn view(&self) -> TimeRange {
        *self
    }
}

impl DeepView for TimeRange {
    type V = TimeRange;

    open spec fn deep_view(&self) -> TimeRange {
        self.view()
    }
}

/// What an alert applies to.
pub struct EntitySelector {
    pub agency_id: Option<String>,
    pub route_id: Option<String>,
    pub route_type: Option<i32>,
    pub trip: Option<TripDescriptor>,
    pub stop_id: Option<String>,
}

pub struct EntitySelectorV {
    pub agency_id: Option<Seq<char>>,
    pub route_id: Option<Seq<char>>,
    pub route_type: Option<i32>,
    pub trip: Option<TripDescriptorV>,
    pub stop_id: Option<Seq<char>>,
}

impl View for EntitySelector {
    type V = EntitySelectorV;

    open spec fn view(&self) -> EntitySelectorV {
        EntitySelectorV {
            agency_id: match self.agency_id {
                Some(s) => Some(s@),
                None => None,
            },
            route_id: match self.route_id {
                Some(s) => Some(s@),
                None => None,
            },
            route_type: self.route_type,
            trip: match self.trip {
                Some(t) => Some(t@),
                None => None,
            },
            stop_id: match self.stop_id {
                Some(s) => Some(s@),
                None => None,
            },
        }
    }
}

impl DeepView for EntitySelector {
    type V = EntitySelectorV;

    open spec fn deep_view(&self) -> EntitySelectorV {
        self.view()
    }
}

/// One translation of an alert text.
pub struct Translation {
    pub text: String,
    pub language: Option<String>,
}

pub struct TranslationV {
    pub text: Seq<char>,
    pub language: Option<Seq<char>>,
}

impl View for Translation {
    type V = TranslationV;

    open spec fn view(&self) -> TranslationV {
        TranslationV {
            text: self.text@,
            language: match self.language {
                Some(s) => Some(s@),
                None => None,
            },
        }
    }
}

impl DeepView for Translation {
    type V = TranslationV;

    open spec fn deep_view(&self) -> TranslationV {
        self.view()
    }
}

/// An alert text in its translations.
pub struct TranslatedString {
    pub translation: Vec<Translation>,
}

pub struct TranslatedStringV {
    pub translation: Seq<TranslationV>,
}

impl View for TranslatedString {
    type V = TranslatedStringV;

    open spec fn view(&self) -> TranslatedStringV {
        TranslatedStringV { translation: self.translation.deep_view() }
    }
}

impl DeepView for TranslatedString {
    type V = TranslatedStringV;

    open spec fn deep_view(&self) -> TranslatedStringV {
        self.view()
    }
}

/// Why an alert was raised.
#[derive(Clone, Copy, PartialEq, Eq, Structural, Debug)]
pub enum Cause {
    UnknownCause,
}

/// What an alert does to service.
#[derive(Clone, Copy, PartialEq, Eq, Structural, Debug)]
pub enum Effect {
    UnknownEffect,
}

/// An alert entity's payload.
pub struct Alert {
    pub active_period: Vec<TimeRange>,
    pub informed_entity: Vec<EntitySelector>,
    pub cause: Option<Cause>,
    pub effect: Option<Effect>,
    pub url: Option<String>,
    pub header_text: Option<TranslatedString>,
    pub description_text: Option<TranslatedString>,
}

pub struct AlertV {
    pub active_period: Seq<TimeRange>,
    pub informed_entity: Seq<EntitySelectorV>,
    pub cause: Option<Cause>,
    pub effect: Option<Effect>,
    pub url: Option<Seq<char>>,
    pub header_text: Option<TranslatedStringV>,
    pub description_text: Option<TranslatedStringV>,
}

impl View for Alert {
    type V = AlertV;

    open spec fn view(&self) -> AlertV {
        AlertV {
            active_period: self.active_period.deep_view(),
            informed_entity: self.informed_entity.deep_view(),
            cause: self.cause,
            effect: self.effect,
            url: match self.url {
                Some(s) => Some(s@),
                None => None,
            },
            header_text: match self.header_text {
                Some(t) => Some(t@),
                None => None,
            },
            description_text: match self.description_text {
                Some(t) => Some(t@),
                None => None,
            },
        }
    }
}

impl DeepView for Alert {
    type V = AlertV;

    open spec fn deep_view(&self) -> AlertV {
        self.view()
    }
}

/// One entity of the feed: exactly one of a trip update, a vehicle
/// position, or an alert, under a feed-unique id.
pub struct FeedEntity {
    pub id: String,
    pub is_deleted: Option<bool>,
    pub trip_update: Option<TripUpdate>,
    pub vehicle: Option<VehiclePosition>,
    pub alert: Option<Alert>,
}

pub struct FeedEntityV {
    pub id: Seq<char>,
    pub is_deleted: Option<bool>,
    pub trip_update: Option<TripUpdateV>,
    pub vehicle: Option<VehiclePositionV>,
    pub alert: Option<AlertV>,
}

impl View for FeedEntity {
    type V = FeedEntityV;

    open spec fn view(&self) -> FeedEntityV {
        FeedEntityV {
            id: self.id@,
            is_deleted: self.is_deleted,
            trip_update: match self.trip_update {
                Some(t) => Some(t@),
                None => None,
            },
            vehicle: match self.vehicle {
                Some(v) => Some(v@),
                None => None,
            },
            alert: match self.alert {
                Some(a) => Some(a@),
                None => None,
            },
        }
    }
}

impl DeepView for FeedEntity {
    type V = FeedEntityV;

    open spec fn deep_view(&self) -> FeedEntityV {
        self.view()
    }
}

/// How a feed relates to previous feeds: always a full snapshot here.
#[derive(Clone, Copy, PartialEq, Eq, Structural, Debug)]
pub enum Incrementality {
    FullDataset,
}

/// The feed's header.
pub struct FeedHeader {
    pub gtfs_realtime_version: String,
    pub incrementality: Option<Incrementality>,
    pub timestamp: Option<u64>,
}

pub struct FeedHeaderV {
    pub gtfs_realtime_version: Seq<char>,
    pub incrementality: Option<Incrementality>,
    pub timestamp: Option<u64>,
}

impl View for FeedHeader {
    type V = FeedHeaderV;

    open spec fn view(&self) -> FeedHeaderV {
        FeedHeaderV {
            gtfs_realtime_version: self.gtfs_realtime_version@,
            incrementality: self.incrementality,
            timestamp: self.timestamp,
        }
    }
}

impl DeepView for FeedHeader {
    type V = FeedHeaderV;

    open spec fn deep_view(&self) -> FeedHeaderV {
        self.view()
    }
}

/// The whole feed: a header and its entities.
pub struct FeedMessage {
    pub header: FeedHeader,
    pub entity: Vec<FeedEntity>,
}

} // verus!
