//! How stored character rows become character records. The store is read
//! by the caller; these functions decode what it read: profiles, timestamps,
//! locations, summaries and walkthrough progress, and put each character
//! together with its summary and progress.

use vstd::prelude::*;
use crate::domain::character::models::{
    Ascendency, CharacterClass, CharacterData, CharacterProfile, CharacterTimestamps,
    EnrichedZoneStats, League, LocationState, ascendency_from_name, class_from_name,
    league_from_name,
};
use crate::json::{string_list_from_json, string_list_or_empty};
use crate::domain::walkthrough::models::WalkthroughProgress;
use crate::domain::zone_tracking::{TrackingSummary, empty_summary};
use crate::errors::{AppError, ErrorKind, operation_message};
use crate::text::str_equals;
use crate::time::{Timestamp, parse_rfc3339, rfc3339_instant, signed_whole_seconds};

verus! {

/// A stored character, as read with the name of its current zone.
#[derive(Debug, Clone)]
pub struct CharacterRow {
    pub id: String,
    pub name: String,
    pub class: String,
    pub ascendency: String,
    pub league: String,
    pub hardcore: i64,
    pub solo_self_found: i64,
    pub level: i64,
    pub created_at: String,
    pub last_played: Option<String>,
    pub last_updated: String,
    pub current_zone_updated_at: Option<String>,
    pub current_zone_name: Option<String>,
}

/// The stored totals of one character's zones.
#[derive(Debug, Clone)]
pub struct SummaryRow {
    pub character_id: String,
    pub total_play_time: i64,
    pub total_hideout_time: i64,
    pub total_town_time: i64,
    pub total_zones_visited: i64,
    pub total_deaths: i64,
    pub play_time_act1: i64,
    pub play_time_act2: i64,
    pub play_time_act3: i64,
    pub play_time_act4: i64,
    pub play_time_act5: i64,
    pub play_time_interlude: i64,
    pub play_time_endgame: i64,
}

/// The stored walkthrough progress of one character.
#[derive(Debug, Clone)]
pub struct ProgressRow {
    pub character_id: String,
    pub current_step_id: Option<String>,
    pub is_completed: i64,
    pub last_updated: String,
}

/// The class stored as `s`, or the default class where `s` names none.
pub open spec fn class_or_default(s: Seq<char>) -> CharacterClass {
    match class_from_name(s) {
        Some(c) => c,
        None => CharacterClass::Warrior,
    }
}

/// The ascendency stored as `s`, or the default one.
pub open spec fn ascendency_or_default(s: Seq<char>) -> Ascendency {
    match ascendency_from_name(s) {
        Some(a) => a,
        None => Ascendency::Titan,
    }
}

/// The league stored as `s`, or the default one.
pub open spec fn league_or_default(s: Seq<char>) -> League {
    match league_from_name(s) {
        Some(l) => l,
        None => League::Standard,
    }
}

/// The instant stored as RFC 3339 `text`, or `fallback` where it is none.
pub open spec fn instant_or(text: Seq<char>, fallback: Timestamp) -> Timestamp {
    match rfc3339_instant(text) {
        Some(t) => t,
        None => fallback,
    }
}

/// The instant of optional RFC 3339 text; none where there is no text or it
/// is no date-time.
pub open spec fn optional_instant(text: Option<String>) -> Option<Timestamp> {
    match text {
        Some(t) => rfc3339_instant(t@),
        None => None,
    }
}

/// The profile of a stored character; names that are no class, ascendency
/// or league read as the defaults, and a flag is set when it is not 0.
pub open spec fn profile_of_row(row: CharacterRow) -> CharacterProfile {
    CharacterProfile {
        name: row.name,
        class: class_or_default(row.class@),
        ascendency: ascendency_or_default(row.ascendency@),
        league: league_or_default(row.league@),
        hardcore: row.hardcore != 0,
        solo_self_found: row.solo_self_found != 0,
        level: row.level as u32,
    }
}

/// The timestamps of a stored character, unreadable ones read as `now`.
pub open spec fn timestamps_of_row(row: CharacterRow, now: Timestamp) -> CharacterTimestamps {
    CharacterTimestamps {
        created_at: instant_or(row.created_at@, now),
        last_played: optional_instant(row.last_played),
        last_updated: instant_or(row.last_updated@, now),
    }
}

/// The current location of a stored character, if it has a zone.
pub open spec fn location_of_row(row: CharacterRow, now: Timestamp) -> Option<LocationState> {
    match row.current_zone_name {
        Some(zone_name) => Some(
            LocationState {
                zone_name,
                last_updated: match row.current_zone_updated_at {
                    Some(t) => instant_or(t@, now),
                    None => now,
                },
            },
        ),
        None => None,
    }
}

/// The summary of stored totals.
pub open spec fn summary_of_row(row: SummaryRow) -> TrackingSummary {
    TrackingSummary {
        character_id: row.character_id,
        total_play_time: row.total_play_time as u64,
        total_hideout_time: row.total_hideout_time as u64,
        total_town_time: row.total_town_time as u64,
        total_zones_visited: row.total_zones_visited as u32,
        total_deaths: row.total_deaths as u32,
        play_time_act1: row.play_time_act1 as u64,
        play_time_act2: row.play_time_act2 as u64,
        play_time_act3: row.play_time_act3 as u64,
        play_time_act4: row.play_time_act4 as u64,
        play_time_act5: row.play_time_act5 as u64,
        play_time_interlude: row.play_time_interlude as u64,
        play_time_endgame: row.play_time_endgame as u64,
    }
}

/// Every total of a decoded summary is the stored column of the same name:
/// where the stored values fit their fields, each reads back unchanged, and
/// the summary belongs to the row's character.
pub proof fn lemma_summary_columns(row: SummaryRow)
    requires
        0 <= row.total_play_time,
        0 <= row.total_hideout_time,
        0 <= row.total_town_time,
        0 <= row.total_zones_visited <= u32::MAX,
        0 <= row.total_deaths <= u32::MAX,
        0 <= row.play_time_act1,
        0 <= row.play_time_act2,
        0 <= row.play_time_act3,
        0 <= row.play_time_act4,
        0 <= row.play_time_act5,
        0 <= row.play_time_interlude,
        0 <= row.play_time_endgame,
    ensures
        summary_of_row(row).character_id == row.character_id,
        summary_of_row(row).total_play_time == row.total_play_time,
        summary_of_row(row).total_hideout_time == row.total_hideout_time,
        summary_of_row(row).total_town_time == row.total_town_time,
        summary_of_row(row).total_zones_visited == row.total_zones_visited,
        summary_of_row(row).total_deaths == row.total_deaths,
        summary_of_row(row).play_time_act1 == row.play_time_act1,
        summary_of_row(row).play_time_act2 == row.play_time_act2,
        summary_of_row(row).play_time_act3 == row.play_time_act3,
        summary_of_row(row).play_time_act4 == row.play_time_act4,
        summary_of_row(row).play_time_act5 == row.play_time_act5,
        summary_of_row(row).play_time_interlude == row.play_time_interlude,
        summary_of_row(row).play_time_endgame == row.play_time_endgame,
{
}

/// The progress of a stored progress row, an unreadable time read as `now`.
pub open spec fn progress_of_row(row: ProgressRow, now: Timestamp) -> WalkthroughProgress {
    WalkthroughProgress {
        current_step_id: row.current_step_id,
        is_completed: row.is_completed != 0,
        last_updated: instant_or(row.last_updated@, now),
    }
}

/// Row `i` is the last summary row of character `id`.
pub open spec fn is_last_summary_of(rows: Seq<SummaryRow>, id: Seq<char>, i: int) -> bool {
    &&& 0 <= i < rows.len()
    &&& rows[i].character_id@ == id
    &&& forall|j: int| i < j < rows.len() ==> rows[j].character_id@ != id
}

/// Row `i` is the last progress row of character `id`.
pub open spec fn is_last_progress_of(rows: Seq<ProgressRow>, id: Seq<char>, i: int) -> bool {
    &&& 0 <= i < rows.len()
    &&& rows[i].character_id@ == id
    &&& forall|j: int| i < j < rows.len() ==> rows[j].character_id@ != id
}

/// An earlier character row has the same id as row `k`.
pub open spec fn id_seen_before(rows: Seq<CharacterRow>, k: int) -> bool {
    exists|j: int| 0 <= j < k && rows[j].id@ == rows[k].id@
}

/// Character `c` is what row `k` of `rows` reads as: its profile, timestamps
/// and location decoded; its summary and progress those stored last for its
/// id, taken by the first row with that id (any later one, and a character
/// without stored ones, gets an empty summary and no progress).
pub open spec fn assembled_from(
    rows: Seq<CharacterRow>,
    summaries: Seq<SummaryRow>,
    progress: Seq<ProgressRow>,
    now: Timestamp,
    k: int,
    c: CharacterData,
) -> bool {
    let row = rows[k];
    &&& c.id == row.id
    &&& c.profile == profile_of_row(row)
    &&& c.timestamps == timestamps_of_row(row, now)
    &&& c.current_location == location_of_row(row, now)
    &&& if !id_seen_before(rows, k) && exists|i: int| is_last_summary_of(summaries, row.id@, i) {
        exists|i: int| is_last_summary_of(summaries, row.id@, i) && c.summary == summary_of_row(summaries[i])
    } else {
        c.summary == empty_summary(row.id)
    }
    &&& if !id_seen_before(rows, k) && exists|i: int| is_last_progress_of(progress, row.id@, i) {
        exists|i: int|
            is_last_progress_of(progress, row.id@, i) && c.walkthrough_progress == progress_of_row(
                progress[i],
                now,
            )
    } else {
        c.walkthrough_progress.current_step_id is None && !c.walkthrough_progress.is_completed
    }
}

/// The instant stored as `text`, or `fallback`.
fn read_instant_or(text: &str, fallback: Timestamp) -> (res: Timestamp)
    ensures
        res == instant_or(text@, fallback),
{
    match parse_rfc3339(text) {
        Some(t) => t,
        None => fallback,
    }
}

/// Clones optional text.
fn copy_text(text: &Option<String>) -> (res: Option<String>)
    ensures
        res == *text,
{
    match text {
        Some(t) => Some(t.clone()),
        None => None,
    }
}

/// The profile of a stored character, names that are no class, ascendency
/// or league read as the defaults.
pub fn profile_from_row(row: &CharacterRow) -> (res: CharacterProfile)
    ensures
        res == profile_of_row(*row),
{
    let class = match CharacterClass::parse(row.class.as_str()) {
        Ok(c) => c,
        Err(_) => CharacterClass::Warrior,
    };
    let ascendency = match Ascendency::parse(row.ascendency.as_str()) {
        Ok(a) => a,
        Err(_) => Ascendency::Titan,
    };
    let league = match League::parse(row.league.as_str()) {
        Ok(l) => l,
        Err(_) => League::Standard,
    };
    CharacterProfile {
        name: row.name.clone(),
        class,
        ascendency,
        league,
        hardcore: row.hardcore != 0,
        solo_self_found: row.solo_self_found != 0,
        level: row.level as u32,
    }
}

/// The message for a character that is not stored.
pub open spec fn character_not_found_text(id: Seq<char>) -> Seq<char> {
    "Character with ID '"@ + id + "' not found"@
}

/// The profile of one stored character, read strictly: a missing row or a
/// name that is no class, ascendency or league is an error, checked in that
/// order.
pub fn profile_from_row_checked(character_id: &str, row: Option<&CharacterRow>) -> (res: Result<CharacterProfile, AppError>)
    ensures
        row is None ==> (res matches Err(e) && e.kind() == ErrorKind::Validation && e.message()
            == operation_message("load_character_data"@, character_not_found_text(character_id@))),
        row matches Some(r) ==> (class_from_name(r.class@) is None ==> (res matches Err(e)
            && e.kind() == ErrorKind::Validation && e.message() == operation_message(
            "parse_class"@,
            "Unknown CharacterClass: '"@ + r.class@ + "'"@,
        ))),
        row matches Some(r) ==> (class_from_name(r.class@) is Some && ascendency_from_name(
            r.ascendency@,
        ) is None ==> (res matches Err(e) && e.kind() == ErrorKind::Validation && e.message()
            == operation_message(
            "parse_ascendency"@,
            "Unknown Ascendency: '"@ + r.ascendency@ + "'"@,
        ))),
        row matches Some(r) ==> (class_from_name(r.class@) is Some && ascendency_from_name(
            r.ascendency@,
        ) is Some && league_from_name(r.league@) is None ==> (res matches Err(e) && e.kind()
            == ErrorKind::Validation && e.message() == operation_message(
            "parse_league"@,
            "Unknown League: '"@ + r.league@ + "'"@,
        ))),
        row matches Some(r) ==> (class_from_name(r.class@) is Some && ascendency_from_name(
            r.ascendency@,
        ) is Some && league_from_name(r.league@) is Some ==> res == Ok::<
            CharacterProfile,
            AppError,
        >(profile_of_row(*r))),
{
    let r = match row {
        None => {
            let message = String::from_str("Character with ID '").concat(character_id).concat(
                "' not found",
            );
            return Err(AppError::validation_error("load_character_data", message.as_str()));
        },
        Some(r) => r,
    };
    let class = match CharacterClass::parse(r.class.as_str()) {
        Ok(c) => c,
        Err(e) => return Err(AppError::validation_error("parse_class", e.as_str())),
    };
    let ascendency = match Ascendency::parse(r.ascendency.as_str()) {
        Ok(a) => a,
        Err(e) => return Err(AppError::validation_error("parse_ascendency", e.as_str())),
    };
    let league = match League::parse(r.league.as_str()) {
        Ok(l) => l,
        Err(e) => return Err(AppError::validation_error("parse_league", e.as_str())),
    };
    Ok(
        CharacterProfile {
            name: r.name.clone(),
            class,
            ascendency,
            league,
            hardcore: r.hardcore != 0,
            solo_self_found: r.solo_self_found != 0,
            level: r.level as u32,
        },
    )
}

/// The message for stored text that is no RFC 3339 date-time.
pub open spec fn invalid_timestamp_text(text: Seq<char>) -> Seq<char> {
    "Invalid RFC 3339 timestamp: '"@ + text + "'"@
}

/// The class, ascendency and league names of a stored character all parse.
pub open spec fn names_readable(r: CharacterRow) -> bool {
    &&& class_from_name(r.class@) is Some
    &&& ascendency_from_name(r.ascendency@) is Some
    &&& league_from_name(r.league@) is Some
}

/// `e` is the error for the stored time `text` that cannot be read.
pub open spec fn is_timestamp_error(e: AppError, text: Seq<char>) -> bool {
    e.kind() == ErrorKind::Validation && e.message() == operation_message(
        "parse_timestamp"@,
        invalid_timestamp_text(text),
    )
}

/// The instant stored as `text`, read strictly: text that is no RFC 3339
/// date-time is an error.
fn read_instant_checked(text: &str) -> (res: Result<Timestamp, AppError>)
    ensures
        match rfc3339_instant(text@) {
            Some(t) => res == Ok::<Timestamp, AppError>(t),
            None => res matches Err(e) && is_timestamp_error(e, text@),
        },
{
    match parse_rfc3339(text) {
        Some(t) => Ok(t),
        None => {
            let message = String::from_str("Invalid RFC 3339 timestamp: '").concat(text).concat("'");
            Err(AppError::validation_error("parse_timestamp", message.as_str()))
        },
    }
}

/// The stored summary row, if any, as a value.
pub open spec fn stored_summary(summary: Option<&SummaryRow>) -> Option<SummaryRow> {
    match summary {
        Some(s) => Some(*s),
        None => None,
    }
}

/// The stored progress row, if any, as a value.
pub open spec fn stored_progress(progress: Option<&ProgressRow>) -> Option<ProgressRow> {
    match progress {
        Some(p) => Some(*p),
        None => None,
    }
}

/// Character `c` is the stored character `r` read with its stored summary
/// and progress: profile, timestamps and location decoded, the summary of
/// the stored totals (an empty one without them), and the stored progress
/// (none started without it).
pub open spec fn strictly_loaded(
    r: CharacterRow,
    summary: Option<SummaryRow>,
    progress: Option<ProgressRow>,
    now: Timestamp,
    c: CharacterData,
) -> bool {
    &&& c.id == r.id
    &&& c.profile == profile_of_row(r)
    &&& c.timestamps == timestamps_of_row(r, now)
    &&& c.current_location == location_of_row(r, now)
    &&& c.summary == match summary {
        Some(s) => summary_of_row(s),
        None => empty_summary(r.id),
    }
    &&& match progress {
        Some(p) => c.walkthrough_progress == progress_of_row(p, now),
        None => c.walkthrough_progress.current_step_id is None
            && !c.walkthrough_progress.is_completed,
    }
}

/// One stored character put together strictly with its stored summary and
/// walkthrough progress. In this order: a missing row, then a name that is
/// no class, ascendency or league, then a `created_at`, a `last_updated`
/// and a progress time that is no RFC 3339 date-time, is an error. Otherwise
/// the character reads as `assembled_from` reads it: profile, timestamps and
/// location decoded, the summary of the stored totals (an empty one without
/// them), and the stored progress (none started without it). `now` stands in
/// for a location time that cannot be read.
pub fn character_from_rows_checked(
    character_id: &str,
    row: Option<&CharacterRow>,
    summary: Option<&SummaryRow>,
    progress: Option<&ProgressRow>,
    now: Timestamp,
) -> (res: Result<CharacterData, AppError>)
    ensures
        row is None ==> (res matches Err(e) && e.kind() == ErrorKind::Validation && e.message()
            == operation_message("load_character_data"@, character_not_found_text(character_id@))),
        row matches Some(r) ==> (class_from_name(r.class@) is None ==> (res matches Err(e)
            && e.kind() == ErrorKind::Validation && e.message() == operation_message(
            "parse_class"@,
            "Unknown CharacterClass: '"@ + r.class@ + "'"@,
        ))),
        row matches Some(r) ==> (class_from_name(r.class@) is Some && ascendency_from_name(
            r.ascendency@,
        ) is None ==> (res matches Err(e) && e.kind() == ErrorKind::Validation && e.message()
            == operation_message(
            "parse_ascendency"@,
            "Unknown Ascendency: '"@ + r.ascendency@ + "'"@,
        ))),
        row matches Some(r) ==> (class_from_name(r.class@) is Some && ascendency_from_name(
            r.ascendency@,
        ) is Some && league_from_name(r.league@) is None ==> (res matches Err(e) && e.kind()
            == ErrorKind::Validation && e.message() == operation_message(
            "parse_league"@,
            "Unknown League: '"@ + r.league@ + "'"@,
        ))),
        row matches Some(r) ==> (names_readable(*r) && rfc3339_instant(r.created_at@) is None ==> (
        res matches Err(e) && is_timestamp_error(e, r.created_at@))),
        row matches Some(r) ==> (names_readable(*r) && rfc3339_instant(r.created_at@) is Some
            && rfc3339_instant(r.last_updated@) is None ==> (res matches Err(e)
            && is_timestamp_error(e, r.last_updated@))),
        row matches Some(r) ==> (names_readable(*r) && rfc3339_instant(r.created_at@) is Some
            && rfc3339_instant(r.last_updated@) is Some ==> match progress {
            Some(p) => rfc3339_instant(p.last_updated@) is None ==> (res matches Err(e)
                && is_timestamp_error(e, p.last_updated@)),
            None => true,
        }),
        row matches Some(r) ==> (names_readable(*r) && rfc3339_instant(r.created_at@) is Some
            && rfc3339_instant(r.last_updated@) is Some && (progress matches Some(p)
            ==> rfc3339_instant(p.last_updated@) is Some) ==> (res matches Ok(c) && strictly_loaded(
            *r,
            stored_summary(summary),
            stored_progress(progress),
            now,
            c,
        ))),
{
    let profile = match profile_from_row_checked(character_id, row) {
        Ok(p) => p,
        Err(e) => return Err(e),
    };
    let r = match row {
        Some(r) => r,
        None => {
            let message = String::from_str("Character with ID '").concat(character_id).concat(
                "' not found",
            );
            return Err(AppError::validation_error("load_character_data", message.as_str()));
        },
    };
    let created_at = match read_instant_checked(r.created_at.as_str()) {
        Ok(t) => t,
        Err(e) => return Err(e),
    };
    let last_updated = match read_instant_checked(r.last_updated.as_str()) {
        Ok(t) => t,
        Err(e) => return Err(e),
    };
    let last_played = match &r.last_played {
        Some(t) => parse_rfc3339(t.as_str()),
        None => None,
    };
    let summary_data = match summary {
        Some(s) => summary_from_row(s),
        None => TrackingSummary::new(r.id.clone()),
    };
    let walkthrough_progress = match progress {
        Some(p) => {
            let stamp = match read_instant_checked(p.last_updated.as_str()) {
                Ok(t) => t,
                Err(e) => return Err(e),
            };
            WalkthroughProgress {
                current_step_id: copy_text(&p.current_step_id),
                is_completed: p.is_completed != 0,
                last_updated: stamp,
            }
        },
        None => WalkthroughProgress::new(),
    };
    Ok(
        CharacterData {
            id: r.id.clone(),
            profile,
            timestamps: CharacterTimestamps { created_at, last_played, last_updated },
            current_location: location_from_row(r, now),
            summary: summary_data,
            walkthrough_progress,
        },
    )
}

/// The timestamps of a stored character, unreadable ones read as `now`.
pub fn timestamps_from_row(row: &CharacterRow, now: Timestamp) -> (res: CharacterTimestamps)
    ensures
        res == timestamps_of_row(*row, now),
{
    let last_played = match &row.last_played {
        Some(t) => parse_rfc3339(t.as_str()),
        None => None,
    };
    CharacterTimestamps {
        created_at: read_instant_or(row.created_at.as_str(), now),
        last_played,
        last_updated: read_instant_or(row.last_updated.as_str(), now),
    }
}

/// The current location of a stored character, if it has a zone.
pub fn location_from_row(row: &CharacterRow, now: Timestamp) -> (res: Option<LocationState>)
    ensures
        res == location_of_row(*row, now),
{
    match &row.current_zone_name {
        None => None,
        Some(zone_name) => {
            let last_updated = match &row.current_zone_updated_at {
                Some(t) => read_instant_or(t.as_str(), now),
                None => now,
            };
            Some(LocationState { zone_name: zone_name.clone(), last_updated })
        },
    }
}

/// The summary of stored totals.
pub fn summary_from_row(row: &SummaryRow) -> (res: TrackingSummary)
    ensures
        res == summary_of_row(*row),
{
    TrackingSummary {
        character_id: row.character_id.clone(),
        total_play_time: row.total_play_time as u64,
        total_hideout_time: row.total_hideout_time as u64,
        total_town_time: row.total_town_time as u64,
        total_zones_visited: row.total_zones_visited as u32,
        total_deaths: row.total_deaths as u32,
        play_time_act1: row.play_time_act1 as u64,
        play_time_act2: row.play_time_act2 as u64,
        play_time_act3: row.play_time_act3 as u64,
        play_time_act4: row.play_time_act4 as u64,
        play_time_act5: row.play_time_act5 as u64,
        play_time_interlude: row.play_time_interlude as u64,
        play_time_endgame: row.play_time_endgame as u64,
    }
}

/// The walkthrough progress of a stored progress row.
pub fn progress_from_row(row: &ProgressRow, now: Timestamp) -> (res: WalkthroughProgress)
    ensures
        res == progress_of_row(*row, now),
{
    WalkthroughProgress {
        current_step_id: copy_text(&row.current_step_id),
        is_completed: row.is_completed != 0,
        last_updated: read_instant_or(row.last_updated.as_str(), now),
    }
}

/// The position of the last summary row of character `id`, if any.
fn last_summary_of(rows: &Vec<SummaryRow>, id: &str) -> (res: Option<usize>)
    ensures
        res matches Some(i) ==> is_last_summary_of(rows@, id@, i as int),
        res is None ==> forall|i: int| !is_last_summary_of(rows@, id@, i),
{
    let mut found: Option<usize> = None;
    let mut k: usize = 0;
    while k < rows.len()
        invariant
            k <= rows@.len(),
            found matches Some(i) ==> i < k && rows@[i as int].character_id@ == id@ && forall|j: int|
                i < j < k ==> rows@[j].character_id@ != id@,
            found is None ==> forall|j: int| 0 <= j < k ==> rows@[j].character_id@ != id@,
        decreases rows.len() - k,
    {
        if str_equals(rows[k].character_id.as_str(), id) {
            found = Some(k);
        }
        k = k + 1;
    }
    found
}

/// The position of the last progress row of character `id`, if any.
fn last_progress_of(rows: &Vec<ProgressRow>, id: &str) -> (res: Option<usize>)
    ensures
        res matches Some(i) ==> is_last_progress_of(rows@, id@, i as int),
        res is None ==> forall|i: int| !is_last_progress_of(rows@, id@, i),
{
    let mut found: Option<usize> = None;
    let mut k: usize = 0;
    while k < rows.len()
        invariant
            k <= rows@.len(),
            found matches Some(i) ==> i < k && rows@[i as int].character_id@ == id@ && forall|j: int|
                i < j < k ==> rows@[j].character_id@ != id@,
            found is None ==> forall|j: int| 0 <= j < k ==> rows@[j].character_id@ != id@,
        decreases rows.len() - k,
    {
        if str_equals(rows[k].character_id.as_str(), id) {
            found = Some(k);
        }
        k = k + 1;
    }
    found
}

/// Whether a row before row `k` has the same id.
fn seen_before(rows: &Vec<CharacterRow>, k: usize) -> (res: bool)
    requires
        k < rows@.len(),
    ensures
        res == id_seen_before(rows@, k as int),
{
    let mut j: usize = 0;
    while j < k
        invariant
            j <= k,
            k < rows@.len(),
            forall|m: int| 0 <= m < j ==> rows@[m].id@ != rows@[k as int].id@,
        decreases k - j,
    {
        if str_equals(rows[j].id.as_str(), rows[k].id.as_str()) {
            return true;
        }
        j = j + 1;
    }
    false
}

/// Puts the stored characters together with their summaries and
/// walkthrough progress, in the order of the character rows. `now` stands
/// in for times that cannot be read.
pub fn assemble_characters(
    rows: &Vec<CharacterRow>,
    summaries: &Vec<SummaryRow>,
    progress: &Vec<ProgressRow>,
    now: Timestamp,
) -> (res: Vec<CharacterData>)
    ensures
        res@.len() == rows@.len(),
        forall|k: int| 0 <= k < rows@.len() ==> assembled_from(rows@, summaries@, progress@, now, k, #[trigger] res@[k]),
{
    let mut out: Vec<CharacterData> = Vec::new();
    let mut k: usize = 0;
    while k < rows.len()
        invariant
            k <= rows@.len(),
            out@.len() == k,
            forall|m: int| 0 <= m < k ==> assembled_from(rows@, summaries@, progress@, now, m, #[trigger] out@[m]),
        decreases rows.len() - k,
    {
        let row = &rows[k];
        let claimed = seen_before(rows, k);
        let summary = if claimed {
            TrackingSummary::new(row.id.clone())
        } else {
            match last_summary_of(summaries, row.id.as_str()) {
                Some(i) => summary_from_row(&summaries[i]),
                None => TrackingSummary::new(row.id.clone()),
            }
        };
        let walkthrough_progress = if claimed {
            WalkthroughProgress::new()
        } else {
            match last_progress_of(progress, row.id.as_str()) {
                Some(i) => progress_from_row(&progress[i], now),
                None => WalkthroughProgress::new(),
            }
        };
        let c = CharacterData {
            id: row.id.clone(),
            profile: profile_from_row(row),
            timestamps: timestamps_from_row(row, now),
            current_location: location_from_row(row, now),
            summary,
            walkthrough_progress,
        };
        out.push(c);
        k = k + 1;
    }
    out
}

/// `s` is what the store holds as the summary of character `id`: its last
/// summary row, or none when it has none.
pub open spec fn is_stored_summary_of(rows: Seq<SummaryRow>, id: Seq<char>, s: Option<SummaryRow>) -> bool {
    match s {
        Some(x) => exists|i: int| is_last_summary_of(rows, id, i) && rows[i] == x,
        None => forall|i: int| !is_last_summary_of(rows, id, i),
    }
}

/// `p` is what the store holds as the progress of character `id`: its last
/// progress row, or none when it has none.
pub open spec fn is_stored_progress_of(rows: Seq<ProgressRow>, id: Seq<char>, p: Option<ProgressRow>) -> bool {
    match p {
        Some(x) => exists|i: int| is_last_progress_of(rows, id, i) && rows[i] == x,
        None => forall|i: int| !is_last_progress_of(rows, id, i),
    }
}

/// Loading one character strictly gives what loading all characters gives
/// for it: for the first row with its id, the same id, profile, timestamps,
/// location and summary, and, where progress is stored, the same progress
/// (without stored progress, both give progress that has not started).
pub proof fn lemma_strict_load_matches_bulk(
    rows: Seq<CharacterRow>,
    summaries: Seq<SummaryRow>,
    progress: Seq<ProgressRow>,
    now: Timestamp,
    k: int,
    bulk: CharacterData,
    s: Option<SummaryRow>,
    p: Option<ProgressRow>,
    strict: CharacterData,
)
    requires
        0 <= k < rows.len(),
        !id_seen_before(rows, k),
        assembled_from(rows, summaries, progress, now, k, bulk),
        is_stored_summary_of(summaries, rows[k].id@, s),
        is_stored_progress_of(progress, rows[k].id@, p),
        strictly_loaded(rows[k], s, p, now, strict),
    ensures
        strict.id == bulk.id,
        strict.profile == bulk.profile,
        strict.timestamps == bulk.timestamps,
        strict.current_location == bulk.current_location,
        strict.summary == bulk.summary,
        p is Some ==> strict.walkthrough_progress == bulk.walkthrough_progress,
        strict.walkthrough_progress.current_step_id == bulk.walkthrough_progress.current_step_id,
        strict.walkthrough_progress.is_completed == bulk.walkthrough_progress.is_completed,
{
    let id = rows[k].id@;
    match s {
        Some(x) => {
            let i = choose|i: int| is_last_summary_of(summaries, id, i) && summaries[i] == x;
            let j = choose|j: int| is_last_summary_of(summaries, id, j) && bulk.summary
                == summary_of_row(summaries[j]);
            lemma_last_summary_unique(summaries, id, i, j);
        },
        None => {},
    }
    match p {
        Some(x) => {
            let i = choose|i: int| is_last_progress_of(progress, id, i) && progress[i] == x;
            let j = choose|j: int| is_last_progress_of(progress, id, j) && bulk.walkthrough_progress
                == progress_of_row(progress[j], now);
            lemma_last_progress_unique(progress, id, i, j);
        },
        None => {},
    }
}

/// The last summary row of a character is unique.
proof fn lemma_last_summary_unique(rows: Seq<SummaryRow>, id: Seq<char>, i: int, j: int)
    requires
        is_last_summary_of(rows, id, i),
        is_last_summary_of(rows, id, j),
    ensures
        i == j,
{
    if i < j {
        assert(rows[j].character_id@ == id);
    } else if j < i {
        assert(rows[i].character_id@ == id);
    }
}

/// The last progress row of a character is unique.
proof fn lemma_last_progress_unique(rows: Seq<ProgressRow>, id: Seq<char>, i: int, j: int)
    requires
        is_last_progress_of(rows, id, i),
        is_last_progress_of(rows, id, j),
    ensures
        i == j,
{
    if i < j {
        assert(rows[j].character_id@ == id);
    } else if j < i {
        assert(rows[i].character_id@ == id);
    }
}

/// Two loads of all characters from the same stored rows agree: every
/// character has the same id, profile, timestamps, location and summary in
/// both, and the same walkthrough progress where progress is stored for it
/// (without stored progress, neither has started). So listing the characters
/// with their summaries gives what loading them all gives.
pub proof fn lemma_assembly_agrees(
    rows: Seq<CharacterRow>,
    summaries: Seq<SummaryRow>,
    progress: Seq<ProgressRow>,
    now: Timestamp,
    k: int,
    a: CharacterData,
    b: CharacterData,
)
    requires
        0 <= k < rows.len(),
        assembled_from(rows, summaries, progress, now, k, a),
        assembled_from(rows, summaries, progress, now, k, b),
    ensures
        a.id == b.id,
        a.profile == b.profile,
        a.timestamps == b.timestamps,
        a.current_location == b.current_location,
        a.summary == b.summary,
        a.walkthrough_progress.current_step_id == b.walkthrough_progress.current_step_id,
        a.walkthrough_progress.is_completed == b.walkthrough_progress.is_completed,
        (!id_seen_before(rows, k) && exists|i: int| is_last_progress_of(progress, rows[k].id@, i))
            ==> a.walkthrough_progress == b.walkthrough_progress,
{
    let id = rows[k].id@;
    if !id_seen_before(rows, k) && exists|i: int| is_last_summary_of(summaries, id, i) {
        let i = choose|i: int| is_last_summary_of(summaries, id, i) && a.summary == summary_of_row(summaries[i]);
        let j = choose|j: int| is_last_summary_of(summaries, id, j) && b.summary == summary_of_row(summaries[j]);
        lemma_last_summary_unique(summaries, id, i, j);
    }
    if !id_seen_before(rows, k) && exists|i: int| is_last_progress_of(progress, id, i) {
        let i = choose|i: int| is_last_progress_of(progress, id, i) && a.walkthrough_progress == progress_of_row(progress[i], now);
        let j = choose|j: int| is_last_progress_of(progress, id, j) && b.walkthrough_progress == progress_of_row(progress[j], now);
        lemma_last_progress_unique(progress, id, i, j);
    }
}

/// A stored zone record of one character, as read with what is known of
/// the zone.
#[derive(Debug, Clone)]
pub struct ZoneStatsRow {
    pub zone_name: String,
    pub duration: i64,
    pub deaths: i64,
    pub visits: i64,
    pub first_visited: String,
    pub last_visited: String,
    pub is_active: i64,
    pub entry_timestamp: Option<String>,
    pub act: i64,
    pub area_level: Option<i64>,
    pub is_town: i64,
    pub has_waypoint: i64,
    pub zone_type: String,
    pub bosses: String,
    pub npcs: String,
    pub connected_zones: String,
    pub description: Option<String>,
    pub points_of_interest: String,
    pub image_url: Option<String>,
    pub wiki_url: Option<String>,
    pub last_updated: String,
}

/// The stored area level, as a level.
pub open spec fn level_of(v: Option<i64>) -> Option<u32> {
    match v {
        Some(l) => Some(l as u32),
        None => None,
    }
}

/// `z` is the stored zone record `row` read at `now`: counts cast, flags set
/// when not 0, visit times read as RFC 3339 (`now` where they cannot be),
/// the entry time and the zone's own update time read where they can be,
/// and the JSON lists read (empty where they cannot be).
pub open spec fn enriched_from_row(row: ZoneStatsRow, now: Timestamp, z: EnrichedZoneStats) -> bool {
    &&& z.zone_name == row.zone_name
    &&& z.duration == row.duration as u64
    &&& z.deaths == row.deaths as u32
    &&& z.visits == row.visits as u32
    &&& z.first_visited == instant_or(row.first_visited@, now)
    &&& z.last_visited == instant_or(row.last_visited@, now)
    &&& z.is_active == (row.is_active != 0)
    &&& z.entry_timestamp == optional_instant(row.entry_timestamp)
    &&& z.act == Some(row.act as u32)
    &&& z.area_level == level_of(row.area_level)
    &&& z.is_town == (row.is_town != 0)
    &&& z.has_waypoint == (row.has_waypoint != 0)
    &&& z.zone_type == row.zone_type
    &&& z.bosses.deep_view() == string_list_or_empty(row.bosses@)
    &&& z.npcs.deep_view() == string_list_or_empty(row.npcs@)
    &&& z.connected_zones.deep_view() == string_list_or_empty(row.connected_zones@)
    &&& z.description == row.description
    &&& z.points_of_interest.deep_view() == string_list_or_empty(row.points_of_interest@)
    &&& z.image_url == row.image_url
    &&& z.wiki_url == row.wiki_url
    &&& z.last_updated == rfc3339_instant(row.last_updated@)
}

/// A stored zone record of one character, with what is known of the zone,
/// read at `now`.
pub fn zone_stats_from_row(row: &ZoneStatsRow, now: Timestamp) -> (res: EnrichedZoneStats)
    ensures
        enriched_from_row(*row, now, res),
{
    let entry_timestamp = match &row.entry_timestamp {
        Some(t) => parse_rfc3339(t.as_str()),
        None => None,
    };
    let area_level = match row.area_level {
        Some(l) => Some(l as u32),
        None => None,
    };
    EnrichedZoneStats {
        zone_name: row.zone_name.clone(),
        duration: row.duration as u64,
        deaths: row.deaths as u32,
        visits: row.visits as u32,
        first_visited: read_instant_or(row.first_visited.as_str(), now),
        last_visited: read_instant_or(row.last_visited.as_str(), now),
        is_active: row.is_active != 0,
        entry_timestamp,
        act: Some(row.act as u32),
        area_level,
        is_town: row.is_town != 0,
        has_waypoint: row.has_waypoint != 0,
        zone_type: row.zone_type.clone(),
        bosses: string_list_from_json(row.bosses.as_str()),
        npcs: string_list_from_json(row.npcs.as_str()),
        connected_zones: string_list_from_json(row.connected_zones.as_str()),
        description: copy_text(&row.description),
        points_of_interest: string_list_from_json(row.points_of_interest.as_str()),
        image_url: copy_text(&row.image_url),
        wiki_url: copy_text(&row.wiki_url),
        last_updated: parse_rfc3339(row.last_updated.as_str()),
    }
}

/// The stored zone records of one character, read at `now`, in the order
/// the store gave them.
pub fn zones_from_rows(rows: &Vec<ZoneStatsRow>, now: Timestamp) -> (res: Vec<EnrichedZoneStats>)
    ensures
        res@.len() == rows@.len(),
        forall|k: int| 0 <= k < rows@.len() ==> enriched_from_row(rows@[k], now, #[trigger] res@[k]),
{
    let mut out: Vec<EnrichedZoneStats> = Vec::new();
    let mut k: usize = 0;
    while k < rows.len()
        invariant
            k <= rows@.len(),
            out@.len() == k,
            forall|m: int| 0 <= m < k ==> enriched_from_row(rows@[m], now, #[trigger] out@[m]),
        decreases rows.len() - k,
    {
        let z = zone_stats_from_row(&rows[k], now);
        out.push(z);
        k = k + 1;
    }
    out
}

/// Whole seconds a zone has been active, from its stored entry time to
/// `now`: never negative, 0 where the entry time cannot be read, and capped
/// at `i64::MAX`.
pub open spec fn entry_elapsed_seconds(entry: Seq<char>, now: Timestamp) -> int {
    match rfc3339_instant(entry) {
        Some(t) => {
            let s = signed_whole_seconds(now, t);
            if s <= 0 {
                0
            } else if s > i64::MAX {
                i64::MAX as int
            } else {
                s
            }
        },
        None => 0,
    }
}

/// The seconds to add to a zone that is left at `now`, its timer having
/// started at the stored `entry_timestamp`.
pub fn zone_elapsed_seconds(entry_timestamp: &str, now: Timestamp) -> (res: i64)
    ensures
        res == entry_elapsed_seconds(entry_timestamp@, now),
{
    match parse_rfc3339(entry_timestamp) {
        None => 0,
        Some(t) => {
            let d: i128 = (now.secs as i128 - t.secs as i128) * 1_000_000_000i128 + (now.nanos as i128
                - t.nanos as i128);
            assert(d == now.total_nanos() - t.total_nanos());
            let s: i128 = if d >= 0 {
                d / 1_000_000_000i128
            } else {
                -((-d) / 1_000_000_000i128)
            };
            if s <= 0 {
                0
            } else if s > i64::MAX as i128 {
                i64::MAX
            } else {
                s as i64
            }
        },
    }
}

} // verus!
