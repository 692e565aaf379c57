//! Mapping service announcements to alert entities.

use vstd::prelude::*;

use crate::feed::{
    Alert, AlertV, Cause, Effect, EntitySelector, EntitySelectorV, FeedEntity, FeedEntityV,
    TimeRange,
};
use crate::numbers::{dec_digits, u64_to_string};
use crate::time::{parse_rfc3339_epoch, rfc3339_epoch};
use crate::traits::{translation_of, Translate};

verus! {

/// A service announcement, as the announcements endpoint delivers it.
pub struct Announcement {
    pub agency_id: u64,
    pub date: String,
    pub has_content: bool,
    pub html: String,
    pub id: u64,
    pub start_at: String,
    pub title: String,
    pub urgent: bool,
}

pub struct AnnouncementV {
    pub agency_id: u64,
    pub date: Seq<char>,
    pub has_content: bool,
    pub html: Seq<char>,
    pub id: u64,
    pub start_at: Seq<char>,
    pub title: Seq<char>,
    pub urgent: bool,
}

impl View for Announcement {
    type V = AnnouncementV;

    open spec fn view(&self) -> AnnouncementV {
        AnnouncementV {
            agency_id: self.agency_id,
            date: self.date@,
            has_content: self.has_content,
            html: self.html@,
            id: self.id,
            start_at: self.start_at@,
            title: self.title@,
            urgent: self.urgent,
        }
    }
}

impl DeepView for Announcement {
    type V = AnnouncementV;

    open spec fn deep_view(&self) -> AnnouncementV {
        self.view()
    }
}

/// The alert entity of an announcement: its id as text; one active
/// period opening at the announcement's RFC 3339 start (absent when that
/// does not parse) with no end; one selector naming only the agency;
/// unknown cause and effect; the title and body as untagged texts.
pub open spec fn alert_entity_of(a: AnnouncementV, agency_id: u64) -> FeedEntityV {
    FeedEntityV {
        id: dec_digits(a.id as int),
        is_deleted: None,
        trip_update: None,
        vehicle: None,
        alert: Some(
            AlertV {
                active_period: seq![TimeRange { start: rfc3339_epoch(a.start_at), end: None }],
                informed_entity: seq![
                    EntitySelectorV {
                        agency_id: Some(dec_digits(agency_id as int)),
                        route_id: None,
                        route_type: None,
                        trip: None,
                        stop_id: None,
                    },
                ],
                cause: Some(Cause::UnknownCause),
                effect: Some(Effect::UnknownEffect),
                url: None,
                header_text: Some(translation_of(a.title)),
                description_text: Some(translation_of(a.html)),
            },
        ),
    }
}

/// What the alert builder yields: one alert entity per announcement, in
/// order.
pub open spec fn alerts_model(anns: Seq<AnnouncementV>, agency_id: u64) -> Seq<FeedEntityV> {
    Seq::new(anns.len(), |i: int| alert_entity_of(anns[i], agency_id))
}

/// Map each announcement to its alert entity.
pub fn get_alerts(announcements: &Vec<Announcement>, agency_id: u64) -> (r: Vec<FeedEntity>)
    ensures
        r.deep_view() == alerts_model(announcements.deep_view(), agency_id),
        forall|j: int|
            #![trigger r.deep_view()[j]]
            0 <= j < r.deep_view().len() ==> r.deep_view()[j].trip_update is None,
{
    let ghost adv = announcements.deep_view();
    let mut out: Vec<FeedEntity> = Vec::new();
    let mut i: usize = 0;
    while i < announcements.len()
        invariant
            i <= announcements@.len(),
            adv == announcements.deep_view(),
            adv.len() == announcements@.len(),
            out.deep_view().len() == i,
            forall|j: int|
                0 <= j < i ==> out.deep_view()[j] == alert_entity_of(#[trigger] adv[j], agency_id),
        decreases announcements@.len() - i,
    {
        let ann = &announcements[i];
        proof {
            assert(adv[i as int] == announcements@[i as int]@);
        }
        let start = parse_rfc3339_epoch(ann.start_at.as_str());
        let mut active_period: Vec<TimeRange> = Vec::new();
        active_period.push(TimeRange { start, end: None });
        let mut informed_entity: Vec<EntitySelector> = Vec::new();
        informed_entity.push(
            EntitySelector {
                agency_id: Some(u64_to_string(agency_id)),
                route_id: None,
                route_type: None,
                trip: None,
                stop_id: None,
            },
        );
        let e = FeedEntity {
            id: u64_to_string(ann.id),
            is_deleted: None,
            trip_update: None,
            vehicle: None,
            alert: Some(
                Alert {
                    active_period,
                    informed_entity,
                    cause: Some(Cause::UnknownCause),
                    effect: Some(Effect::UnknownEffect),
                    url: None,
                    header_text: Some(ann.title.clone().into_translation()),
                    description_text: Some(ann.html.clone().into_translation()),
                },
            ),
        };
        let ghost ev = e@;
        proof {
            assert(ev.alert->Some_0.active_period =~= alert_entity_of(
                adv[i as int],
                agency_id,
            ).alert->Some_0.active_period);
            assert(ev.alert->Some_0.informed_entity =~= alert_entity_of(
                adv[i as int],
                agency_id,
            ).alert->Some_0.informed_entity);
            assert(ev == alert_entity_of(adv[i as int], agency_id));
        }
        out.push(e);
        i = i + 1;
    }
    proof {
        assert(out.deep_view() =~= alerts_model(adv, agency_id));
    }
    out
}

} // verus!
