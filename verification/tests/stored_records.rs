use poe2_overlord::domain::character::models::CharacterClass;
use poe2_overlord::domain::character::repository::{
    assemble_characters, character_from_rows_checked, zone_stats_from_row, zones_from_rows,
    CharacterRow, ProgressRow, SummaryRow, ZoneStatsRow,
};
use poe2_overlord::domain::character_tracking::models::{CharacterTrackingData, LocationType};
use poe2_overlord::domain::configuration::models::{log_level_filter, LogLevel};
use poe2_overlord::domain::economy::models::{EconomyType, LeagueEconomyCache};
use poe2_overlord::errors::ErrorKind;
use poe2_overlord::json::string_list_from_json;
use poe2_overlord::time::Timestamp;

const NOW: Timestamp = Timestamp { secs: 1_700_000_600, nanos: 0 };

fn stored(id: &str) -> CharacterRow {
    CharacterRow {
        id: id.to_string(),
        name: "Kiri".to_string(),
        class: "Witch".to_string(),
        ascendency: "Infernalist".to_string(),
        league: "Standard".to_string(),
        hardcore: 0,
        solo_self_found: 1,
        level: 12,
        created_at: "2023-11-14T22:13:20Z".to_string(),
        last_played: None,
        last_updated: "2023-11-14T23:13:20+01:00".to_string(),
        current_zone_updated_at: Some("nonsense".to_string()),
        current_zone_name: Some("Clearfell".to_string()),
    }
}

fn totals(id: &str) -> SummaryRow {
    SummaryRow {
        character_id: id.to_string(),
        total_play_time: 100,
        total_hideout_time: 1,
        total_town_time: 2,
        total_zones_visited: 3,
        total_deaths: 4,
        play_time_act1: 5,
        play_time_act2: 6,
        play_time_act3: 7,
        play_time_act4: 8,
        play_time_act5: 9,
        play_time_interlude: 10,
        play_time_endgame: 11,
    }
}

fn progress(id: &str, stamp: &str) -> ProgressRow {
    ProgressRow {
        character_id: id.to_string(),
        current_step_id: Some("act1_step3".to_string()),
        is_completed: 0,
        last_updated: stamp.to_string(),
    }
}

#[test]
fn strict_load_reads_a_whole_character() {
    let r = stored("c1");
    let s = totals("c1");
    let p = progress("c1", "2023-11-14T22:13:20.5Z");
    let c = character_from_rows_checked("c1", Some(&r), Some(&s), Some(&p), NOW).unwrap();
    assert_eq!(c.id, "c1");
    assert_eq!(c.profile.class, CharacterClass::Witch);
    assert!(c.profile.solo_self_found);
    assert_eq!(c.timestamps.created_at, Timestamp { secs: 1_700_000_000, nanos: 0 });
    assert_eq!(c.timestamps.last_updated, Timestamp { secs: 1_700_000_000, nanos: 0 });
    assert_eq!(c.current_location.as_ref().unwrap().last_updated, NOW);
    assert_eq!(c.summary.total_play_time, 100);
    assert_eq!(c.walkthrough_progress.current_step_id.as_deref(), Some("act1_step3"));
    assert_eq!(
        c.walkthrough_progress.last_updated,
        Timestamp { secs: 1_700_000_000, nanos: 500_000_000 }
    );
}

#[test]
fn strict_load_agrees_with_loading_all() {
    let r = stored("c1");
    let s = totals("c1");
    let p = progress("c1", "2023-11-14T22:13:20Z");
    let one = character_from_rows_checked("c1", Some(&r), Some(&s), Some(&p), NOW).unwrap();
    let all = assemble_characters(&vec![r.clone()], &vec![s.clone()], &vec![p.clone()], NOW);
    assert_eq!(all.len(), 1);
    assert_eq!(all[0].id, one.id);
    assert_eq!(all[0].timestamps.created_at, one.timestamps.created_at);
    assert_eq!(all[0].summary.total_deaths, one.summary.total_deaths);
    assert_eq!(all[0].walkthrough_progress.last_updated, one.walkthrough_progress.last_updated);
}

#[test]
fn strict_load_without_stored_totals_or_progress() {
    let r = stored("c1");
    let c = character_from_rows_checked("c1", Some(&r), None, None, NOW).unwrap();
    assert_eq!(c.summary.total_play_time, 0);
    assert_eq!(c.summary.character_id, "c1");
    assert!(c.walkthrough_progress.current_step_id.is_none());
    assert!(!c.walkthrough_progress.is_completed);
}

#[test]
fn strict_load_refuses_unreadable_times() {
    let mut r = stored("c1");
    r.created_at = "yesterday".to_string();
    let e = character_from_rows_checked("c1", Some(&r), None, None, NOW).unwrap_err();
    assert_eq!(e.error_kind(), ErrorKind::Validation);
    assert_eq!(
        e.to_string(),
        "Validation error: parse_timestamp: Invalid RFC 3339 timestamp: 'yesterday'"
    );

    let mut r = stored("c1");
    r.last_updated = "".to_string();
    let e = character_from_rows_checked("c1", Some(&r), None, None, NOW).unwrap_err();
    assert_eq!(e.to_string(), "Validation error: parse_timestamp: Invalid RFC 3339 timestamp: ''");

    let r = stored("c1");
    let p = progress("c1", "soon");
    let e = character_from_rows_checked("c1", Some(&r), None, Some(&p), NOW).unwrap_err();
    assert_eq!(e.to_string(), "Validation error: parse_timestamp: Invalid RFC 3339 timestamp: 'soon'");
}

#[test]
fn strict_load_checks_names_before_times() {
    let mut r = stored("c1");
    r.class = "Bard".to_string();
    r.created_at = "yesterday".to_string();
    let e = character_from_rows_checked("c1", Some(&r), None, None, NOW).unwrap_err();
    assert_eq!(e.to_string(), "Validation error: parse_class: Unknown CharacterClass: 'Bard'");
    let e = character_from_rows_checked("c9", None, None, None, NOW).unwrap_err();
    assert_eq!(
        e.to_string(),
        "Validation error: load_character_data: Character with ID 'c9' not found"
    );
}

fn zone_row() -> ZoneStatsRow {
    ZoneStatsRow {
        zone_name: "The Riverbank".to_string(),
        duration: 120,
        deaths: 2,
        visits: 3,
        first_visited: "2023-11-14T22:13:20Z".to_string(),
        last_visited: "not a time".to_string(),
        is_active: 1,
        entry_timestamp: Some("2023-11-14T22:13:30Z".to_string()),
        act: 1,
        area_level: Some(4),
        is_town: 0,
        has_waypoint: 1,
        zone_type: "Campaign".to_string(),
        bosses: "[\"The Bloated Miller\"]".to_string(),
        npcs: "not json".to_string(),
        connected_zones: "[\"Clearfell\",\"Ogham Farmlands\"]".to_string(),
        description: None,
        points_of_interest: "[]".to_string(),
        image_url: Some("https://example.org/a.png".to_string()),
        wiki_url: None,
        last_updated: "2023-11-14T22:13:20Z".to_string(),
    }
}

#[test]
fn zone_row_is_read_with_its_metadata() {
    let z = zone_stats_from_row(&zone_row(), NOW);
    assert_eq!(z.zone_name, "The Riverbank");
    assert_eq!(z.duration, 120);
    assert_eq!(z.deaths, 2);
    assert_eq!(z.visits, 3);
    assert_eq!(z.first_visited, Timestamp { secs: 1_700_000_000, nanos: 0 });
    assert_eq!(z.last_visited, NOW);
    assert!(z.is_active);
    assert_eq!(z.entry_timestamp, Some(Timestamp { secs: 1_700_000_010, nanos: 0 }));
    assert_eq!(z.act, Some(1));
    assert_eq!(z.area_level, Some(4));
    assert!(!z.is_town);
    assert!(z.has_waypoint);
    assert_eq!(z.bosses, vec!["The Bloated Miller".to_string()]);
    assert!(z.npcs.is_empty());
    assert_eq!(z.connected_zones, vec!["Clearfell".to_string(), "Ogham Farmlands".to_string()]);
    assert!(z.points_of_interest.is_empty());
    assert_eq!(z.last_updated, Some(Timestamp { secs: 1_700_000_000, nanos: 0 }));
    let all = zones_from_rows(&vec![zone_row(), zone_row()], NOW);
    assert_eq!(all.len(), 2);
    assert_eq!(all[1].visits, 3);
}

#[test]
fn json_lists_read_or_empty() {
    assert_eq!(string_list_from_json("[\"a\",\"b\\\"c\"]"), vec!["a".to_string(), "b\"c".to_string()]);
    assert!(string_list_from_json("[1,2]").is_empty());
    assert!(string_list_from_json("").is_empty());
}

#[test]
fn log_level_names_set_levels() {
    assert_eq!(log_level_filter("TRACE"), LogLevel::Trace);
    assert_eq!(log_level_filter("debug"), LogLevel::Debug);
    assert_eq!(log_level_filter("Warning"), LogLevel::Warn);
    assert_eq!(log_level_filter("warn"), LogLevel::Warn);
    assert_eq!(log_level_filter("error"), LogLevel::Error);
    assert_eq!(log_level_filter("verbose"), LogLevel::Info);
}

#[test]
fn entering_zones_counts_visits() {
    let mut data = CharacterTrackingData::new("c1".to_string());
    data.enter_zone("Zone_a".to_string(), "A".to_string(), LocationType::Zone, Some("1".to_string()), true);
    let a = data.find_zone("Zone_a").unwrap();
    assert_eq!(a.visits, 1);
    assert_eq!(a.location_name, "A");
    assert!(a.is_town);
    data.enter_zone("Zone_a".to_string(), "ignored".to_string(), LocationType::Zone, None, false);
    let a = data.find_zone("Zone_a").unwrap();
    assert_eq!(a.visits, 2);
    assert_eq!(a.location_name, "A");
    assert!(a.is_active);
}

#[test]
fn cache_stamps_read_back_at_the_given_instant() {
    let mut cache: LeagueEconomyCache<u32> = LeagueEconomyCache::new("Standard".to_string(), false);
    let at = Timestamp { secs: 1_700_000_000, nanos: 250_000_000 };
    cache.update_economy_type_at(EconomyType::Runes, 7, 60, at);
    let c = cache.get_economy_type(EconomyType::Runes).unwrap();
    assert_eq!(c.cached_at, "2023-11-14T22:13:20.250+00:00");
    assert_eq!(cache.last_updated, "2023-11-14T22:13:20.250+00:00");
    assert!(c.is_fresh_at(Timestamp { secs: 1_700_000_059, nanos: 0 }));
    assert!(!c.is_fresh_at(Timestamp { secs: 1_700_000_061, nanos: 0 }));
    cache.update_economy_type(EconomyType::Breach, 8, 600);
    assert!(cache.get_economy_type(EconomyType::Breach).unwrap().is_fresh());
}
