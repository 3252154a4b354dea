//! Character tracking events and errors.

use vstd::prelude::*;
use crate::text::{u64_to_decimal, decimal_text};
use crate::time::{Timestamp, now};
use super::models::{ZoneStats, location_type_name};

verus! {

/// A character entered a zone.
#[derive(Debug)]
pub struct ZoneEntered {
    pub character_id: String,
    pub zone: ZoneStats,
    pub occurred_at: Timestamp,
}

impl ZoneEntered {
    /// The event for a character and zone, stamped now.
    pub fn new(character_id: String, zone: ZoneStats) -> (res: ZoneEntered)
        ensures
            res.character_id == character_id,
            res.zone == zone,
    {
        ZoneEntered { character_id, zone, occurred_at: now() }
    }
}

/// A character left a zone.
#[derive(Debug)]
pub struct ZoneLeft {
    pub character_id: String,
    pub zone: ZoneStats,
    pub occurred_at: Timestamp,
}

impl ZoneLeft {
    /// The event for a character and zone, stamped now.
    pub fn new(character_id: String, zone: ZoneStats) -> (res: ZoneLeft)
        ensures
            res.character_id == character_id,
            res.zone == zone,
    {
        ZoneLeft { character_id, zone, occurred_at: now() }
    }
}

/// The statistics of a zone were updated.
#[derive(Debug)]
pub struct StatsUpdated {
    pub character_id: String,
    pub zone: ZoneStats,
    pub occurred_at: Timestamp,
}

impl StatsUpdated {
    /// The event for a character and zone, stamped now.
    pub fn new(character_id: String, zone: ZoneStats) -> (res: StatsUpdated)
        ensures
            res.character_id == character_id,
            res.zone == zone,
    {
        StatsUpdated { character_id, zone, occurred_at: now() }
    }
}

/// All tracking data of a character was cleared.
#[derive(Debug)]
pub struct CharacterTrackingDataCleared {
    pub character_id: String,
    pub occurred_at: Timestamp,
}

impl CharacterTrackingDataCleared {
    /// The event for a character, stamped now.
    pub fn new(character_id: String) -> (res: CharacterTrackingDataCleared)
        ensures
            res.character_id == character_id,
    {
        CharacterTrackingDataCleared { character_id, occurred_at: now() }
    }
}

/// Tracking data of a character was loaded.
#[derive(Debug)]
pub struct CharacterTrackingDataLoaded {
    pub character_id: String,
    pub zones_count: usize,
    pub occurred_at: Timestamp,
}

impl CharacterTrackingDataLoaded {
    /// The event for a character and its number of zones, stamped now.
    pub fn new(character_id: String, zones_count: usize) -> (res: CharacterTrackingDataLoaded)
        ensures
            res.character_id == character_id,
            res.zones_count == zones_count,
    {
        CharacterTrackingDataLoaded { character_id, zones_count, occurred_at: now() }
    }
}

/// Tracking data of a character was saved.
#[derive(Debug)]
pub struct CharacterTrackingDataSaved {
    pub character_id: String,
    pub zones_count: usize,
    pub occurred_at: Timestamp,
}

impl CharacterTrackingDataSaved {
    /// The event for a character and its number of zones, stamped now.
    pub fn new(character_id: String, zones_count: usize) -> (res: CharacterTrackingDataSaved)
        ensures
            res.character_id == character_id,
            res.zones_count == zones_count,
    {
        CharacterTrackingDataSaved { character_id, zones_count, occurred_at: now() }
    }
}

/// A character tracking event.
#[derive(Debug)]
pub enum CharacterTrackingEvent {
    ZoneEntered(ZoneEntered),
    ZoneLeft(ZoneLeft),
    StatsUpdated(StatsUpdated),
    CharacterTrackingDataCleared(CharacterTrackingDataCleared),
    CharacterTrackingDataLoaded(CharacterTrackingDataLoaded),
    CharacterTrackingDataSaved(CharacterTrackingDataSaved),
}

/// The kind of system event under which tracking events are published.
pub open spec fn tracking_event_kind() -> Seq<char> {
    "CharacterTracking"@
}

/// "`prefix` `name` (`type`)" for an event about a zone.
pub open spec fn zone_event_text(prefix: Seq<char>, zone: ZoneStats) -> Seq<char> {
    prefix + zone.location_name@ + " ("@ + location_type_name(zone.location_type) + ")"@
}

/// The message published for a tracking event.
pub open spec fn tracking_event_text(event: CharacterTrackingEvent) -> Seq<char> {
    match event {
        CharacterTrackingEvent::ZoneEntered(e) => zone_event_text("Zone entered: "@, e.zone),
        CharacterTrackingEvent::ZoneLeft(e) => zone_event_text("Zone left: "@, e.zone),
        CharacterTrackingEvent::StatsUpdated(e) => zone_event_text("Stats updated: "@, e.zone),
        CharacterTrackingEvent::CharacterTrackingDataCleared(_) => "Character tracking data cleared"@,
        CharacterTrackingEvent::CharacterTrackingDataLoaded(e) => "Character tracking data loaded: "@
            + decimal_text(e.zones_count as nat) + " zones"@,
        CharacterTrackingEvent::CharacterTrackingDataSaved(e) => "Character tracking data saved: "@
            + decimal_text(e.zones_count as nat) + " zones"@,
    }
}

/// "`prefix` `name` (`type`)".
fn zone_event_message(prefix: &str, zone: &ZoneStats) -> (res: String)
    ensures
        res@ == zone_event_text(prefix@, *zone),
{
    let t = zone.location_type.to_string();
    String::from_str(prefix).concat(zone.location_name.as_str()).concat(" (").concat(
        t.as_str(),
    ).concat(")")
}

/// The message under which a tracking event is published to the event bus.
pub fn tracking_event_message(event: &CharacterTrackingEvent) -> (res: String)
    ensures
        res@ == tracking_event_text(*event),
{
    match event {
        CharacterTrackingEvent::ZoneEntered(e) => zone_event_message("Zone entered: ", &e.zone),
        CharacterTrackingEvent::ZoneLeft(e) => zone_event_message("Zone left: ", &e.zone),
        CharacterTrackingEvent::StatsUpdated(e) => zone_event_message("Stats updated: ", &e.zone),
        CharacterTrackingEvent::CharacterTrackingDataCleared(_) => String::from_str(
            "Character tracking data cleared",
        ),
        CharacterTrackingEvent::CharacterTrackingDataLoaded(e) => {
            let n = u64_to_decimal(e.zones_count as u64);
            String::from_str("Character tracking data loaded: ").concat(n.as_str()).concat(" zones")
        },
        CharacterTrackingEvent::CharacterTrackingDataSaved(e) => {
            let n = u64_to_decimal(e.zones_count as u64);
            String::from_str("Character tracking data saved: ").concat(n.as_str()).concat(" zones")
        },
    }
}

/// Errors of character tracking.
#[derive(Debug)]
pub enum CharacterTrackingError {
    InvalidSceneType { scene_type: String },
    ConfigurationError { message: String },
    CharacterIdRequired { message: String },
    ZoneNotFound { zone_id: String, character_id: String },
}

/// The message of a character tracking error.
pub open spec fn tracking_error_text(e: CharacterTrackingError) -> Seq<char> {
    match e {
        CharacterTrackingError::InvalidSceneType { scene_type } => "Invalid scene type: "@
            + scene_type@,
        CharacterTrackingError::ConfigurationError { message } => "Configuration error: "@
            + message@,
        CharacterTrackingError::CharacterIdRequired { message } => "Character ID is required: "@
            + message@,
        CharacterTrackingError::ZoneNotFound { zone_id, character_id } => "Zone not found: "@
            + zone_id@ + " for character "@ + character_id@,
    }
}

impl CharacterTrackingError {
    /// The message of this error.
    pub fn to_string(&self) -> (res: String)
        ensures
            res@ == tracking_error_text(*self),
    {
        match self {
            CharacterTrackingError::InvalidSceneType { scene_type } => String::from_str(
                "Invalid scene type: ",
            ).concat(scene_type.as_str()),
            CharacterTrackingError::ConfigurationError { message } => String::from_str(
                "Configuration error: ",
            ).concat(message.as_str()),
            CharacterTrackingError::CharacterIdRequired { message } => String::from_str(
                "Character ID is required: ",
            ).concat(message.as_str()),
            CharacterTrackingError::ZoneNotFound { zone_id, character_id } => String::from_str(
                "Zone not found: ",
            ).concat(zone_id.as_str()).concat(" for character ").concat(character_id.as_str()),
        }
    }
}

} // verus!
