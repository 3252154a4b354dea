use poe2_overlord::domain::character::models::{Ascendency, CharacterClass, League};
use poe2_overlord::domain::character::repository::{
    assemble_characters, profile_from_row, profile_from_row_checked, zone_elapsed_seconds,
    CharacterRow, ProgressRow, SummaryRow,
};
use poe2_overlord::time::Timestamp;

const NOW: Timestamp = Timestamp { secs: 1_700_000_600, nanos: 0 };

fn row(id: &str, class: &str) -> CharacterRow {
    CharacterRow {
        id: id.to_string(),
        name: format!("name-{id}"),
        class: class.to_string(),
        ascendency: "Smith of Katava".to_string(),
        league: "Rise of the Abyssal".to_string(),
        hardcore: 1,
        solo_self_found: 0,
        level: 42,
        created_at: "2023-11-14T22:13:20Z".to_string(),
        last_played: Some("garbage".to_string()),
        last_updated: "also garbage".to_string(),
        current_zone_updated_at: None,
        current_zone_name: Some("Clearfell".to_string()),
    }
}

fn summary(id: &str, play: i64) -> SummaryRow {
    SummaryRow {
        character_id: id.to_string(),
        total_play_time: play,
        total_hideout_time: 1,
        total_town_time: 2,
        total_zones_visited: 3,
        total_deaths: 4,
        play_time_act1: 5,
        play_time_act2: 6,
        play_time_act3: 7,
        play_time_act4: 8,
        play_time_act5: 9,
        play_time_interlude: 10,
        play_time_endgame: 11,
    }
}

#[test]
fn lenient_profile_uses_defaults() {
    let p = profile_from_row(&row("a", "Bard"));
    assert_eq!(p.class, CharacterClass::Warrior);
    assert_eq!(p.ascendency, Ascendency::SmithOfKatava);
    assert_eq!(p.league, League::RiseOfTheAbyssal);
    assert!(p.hardcore);
    assert!(!p.solo_self_found);
    assert_eq!(p.level, 42);
}

#[test]
fn strict_profile_reports_what_is_wrong() {
    assert_eq!(
        profile_from_row_checked("x", None).unwrap_err().to_string(),
        "Validation error: load_character_data: Character with ID 'x' not found"
    );
    let r = row("a", "Bard");
    assert_eq!(
        profile_from_row_checked("a", Some(&r)).unwrap_err().to_string(),
        "Validation error: parse_class: Unknown CharacterClass: 'Bard'"
    );
    let mut r = row("a", "Monk");
    r.league = "Hardcore".to_string();
    assert_eq!(
        profile_from_row_checked("a", Some(&r)).unwrap_err().to_string(),
        "Validation error: parse_league: Unknown League: 'Hardcore'"
    );
    let r = row("a", "Monk");
    assert_eq!(profile_from_row_checked("a", Some(&r)).unwrap().class, CharacterClass::Monk);
}

#[test]
fn characters_get_their_summary_and_progress() {
    let rows = vec![row("a", "Monk"), row("b", "Witch"), row("a", "Monk")];
    let summaries = vec![summary("a", 100), summary("a", 200), summary("c", 7)];
    let progress = vec![ProgressRow {
        character_id: "b".to_string(),
        current_step_id: Some("step-3".to_string()),
        is_completed: 1,
        last_updated: "2023-11-14T22:13:20Z".to_string(),
    }];
    let chars = assemble_characters(&rows, &summaries, &progress, NOW);
    assert_eq!(chars.len(), 3);
    assert_eq!(chars[0].summary.total_play_time, 200);
    assert_eq!(chars[0].summary.play_time_endgame, 11);
    assert_eq!(chars[1].summary.total_play_time, 0);
    assert_eq!(chars[1].summary.character_id, "b");
    assert_eq!(chars[2].summary.total_play_time, 0);
    assert_eq!(chars[1].walkthrough_progress.current_step_id.as_deref(), Some("step-3"));
    assert!(chars[1].walkthrough_progress.is_completed);
    assert!(chars[0].walkthrough_progress.current_step_id.is_none());
    assert_eq!(chars[0].timestamps.created_at, Timestamp { secs: 1_700_000_000, nanos: 0 });
    assert_eq!(chars[0].timestamps.last_updated, NOW);
    assert!(chars[0].timestamps.last_played.is_none());
    let loc = chars[0].current_location.as_ref().unwrap();
    assert_eq!(loc.zone_name, "Clearfell");
    assert_eq!(loc.last_updated, NOW);
}

#[test]
fn elapsed_zone_time_is_whole_non_negative_seconds() {
    assert_eq!(zone_elapsed_seconds("2023-11-14T22:13:20Z", NOW), 600);
    assert_eq!(zone_elapsed_seconds("2023-11-14T22:13:20.600Z", NOW), 599);
    assert_eq!(zone_elapsed_seconds("2030-01-01T00:00:00Z", NOW), 0);
    assert_eq!(zone_elapsed_seconds("nonsense", NOW), 0);
}
