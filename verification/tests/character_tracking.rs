use poe2_overlord::domain::character_tracking::models::{
    CharacterTrackingData, LocationState, LocationType, TrackingSummary, ZoneStats,
};
use poe2_overlord::domain::character_tracking::service::{
    generate_location_id, process_scene_content, process_scene_line, validate_scene_change,
    SceneChangeEvent, SceneLineOutcome, SceneTypeConfig, SceneTypeDetector,
    SimpleSceneTypeDetector,
};
use poe2_overlord::domain::character_tracking::traits::{
    tracking_event_message, CharacterTrackingDataLoaded, CharacterTrackingError,
    CharacterTrackingEvent, ZoneEntered,
};
use poe2_overlord::time::Timestamp;

fn zone(id: &str, name: &str, t: LocationType) -> ZoneStats {
    ZoneStats::new(id.to_string(), name.to_string(), t, None, false)
}

fn detector() -> SimpleSceneTypeDetector {
    SimpleSceneTypeDetector::new(SceneTypeConfig {
        hideout_keywords: vec!["hideout".to_string()],
        act_keywords: vec!["act ".to_string()],
    })
}

#[test]
fn location_type_names() {
    assert_eq!(LocationType::Zone.to_string(), "Zone");
    assert_eq!(LocationType::Act.to_string(), "Act");
    assert_eq!(LocationType::Hideout.to_string(), "Hideout");
    let t: LocationType = Default::default();
    assert_eq!(t, LocationType::Zone);
}

#[test]
fn location_state_updates_report_changes() {
    let mut state = LocationState::new();
    assert!(state.get_current_scene().is_none());
    assert!(state.update_scene("The Coast".to_string(), LocationType::Zone));
    assert!(!state.update_scene("The Coast".to_string(), LocationType::Zone));
    assert!(state.update_scene("The Coast".to_string(), LocationType::Hideout));
    assert_eq!(state.get_current_scene().unwrap(), "The Coast");
    assert!(state.update_act("Act 1".to_string()));
    assert!(!state.update_act("Act 1".to_string()));
    assert_eq!(state.get_current_act().unwrap(), "Act 1");
    state.reset();
    assert!(state.scene.is_none());
    assert!(state.act.is_none());
    assert_eq!(state.location_type, LocationType::Zone);
}

#[test]
fn zone_stats_counters() {
    let mut z = zone("Zone_the_coast", "The Coast", LocationType::Zone);
    assert!(z.is_active);
    assert_eq!(z.duration, 0);
    z.add_time(30);
    z.add_time(12);
    assert_eq!(z.duration, 42);
    z.record_death();
    z.record_death();
    assert_eq!(z.deaths, 2);
    z.record_visit();
    assert_eq!(z.visits, 1);
    z.deactivate();
    assert!(!z.is_active);
    assert!(z.entry_timestamp.is_some());
    z.activate();
    assert!(z.is_active);
    assert_eq!(z.visits, 2);
    z.update_zone_level(17);
    assert_eq!(z.zone_level, Some(17));
}

#[test]
fn zone_stats_timer_counts_whole_seconds() {
    let mut z = zone("Zone_a", "A", LocationType::Zone);
    z.entry_timestamp = Some(Timestamp { secs: 1_000, nanos: 500_000_000 });
    let at = Timestamp { secs: 1_010, nanos: 400_000_000 };
    assert_eq!(z.get_current_time_spent_at(at), 9);
    let spent = z.stop_timer_and_add_time_at(at);
    assert_eq!(spent, 9);
    assert_eq!(z.duration, 9);
    assert!(z.entry_timestamp.is_none());
    let before = Timestamp { secs: 900, nanos: 0 };
    z.entry_timestamp = Some(Timestamp { secs: 1_000, nanos: 0 });
    assert_eq!(z.get_current_time_spent_at(before), 0);
}

#[test]
fn tracking_summary_totals() {
    let mut a = zone("Zone_a", "A", LocationType::Zone);
    a.add_time(100);
    a.record_death();
    let mut h = zone("Hideout_h", "H", LocationType::Hideout);
    h.add_time(40);
    let summary = TrackingSummary::from_zones("c1", &[a, h]);
    assert_eq!(summary.character_id, "c1");
    assert_eq!(summary.total_play_time, 140);
    assert_eq!(summary.total_hideout_time, 40);
    assert_eq!(summary.total_zones_visited, 2);
    assert_eq!(summary.total_deaths, 1);
    let empty = TrackingSummary::new("c2".to_string());
    assert_eq!(empty.total_play_time, 0);
}

#[test]
fn upsert_replaces_zone_with_same_id() {
    let mut data = CharacterTrackingData::new("c1".to_string());
    let mut a = zone("Zone_a", "A", LocationType::Zone);
    a.deactivate();
    data.upsert_zone(a);
    let mut a2 = zone("Zone_a", "A", LocationType::Zone);
    a2.deactivate();
    a2.add_time(5);
    data.upsert_zone(a2);
    assert_eq!(data.zones.len(), 1);
    assert_eq!(data.find_zone("Zone_a").unwrap().duration, 5);
    assert!(data.find_zone("Zone_b").is_none());
    assert_eq!(data.summary.total_play_time, 5);
}

#[test]
fn entering_a_zone_leaves_only_it_active() {
    let mut data = CharacterTrackingData::new("c1".to_string());
    data.enter_zone("Zone_a".to_string(), "A".to_string(), LocationType::Zone, None, false);
    data.enter_zone("Zone_b".to_string(), "B".to_string(), LocationType::Zone, None, false);
    data.enter_zone("Zone_a".to_string(), "A".to_string(), LocationType::Zone, None, false);
    assert_eq!(data.zones.len(), 2);
    let active: Vec<&ZoneStats> = data.zones.iter().filter(|z| z.is_active).collect();
    assert_eq!(active.len(), 1);
    assert_eq!(active[0].location_id, "Zone_a");
    assert_eq!(data.get_active_zone().unwrap().location_id, "Zone_a");
    assert_eq!(data.find_zone("Zone_a").unwrap().visits, 2);
    assert_eq!(data.summary.total_zones_visited, 2);
}

#[test]
fn leaving_and_counting_in_a_zone() {
    let mut data = CharacterTrackingData::new("c1".to_string());
    data.enter_zone("Zone_a".to_string(), "A".to_string(), LocationType::Zone, None, false);
    data.record_death_in_zone("Zone_a");
    data.add_time_to_zone("Zone_a", 25);
    data.add_time_to_zone("Zone_missing", 25);
    data.leave_zone("Zone_a");
    let a = data.find_zone("Zone_a").unwrap();
    assert!(!a.is_active);
    assert_eq!(a.deaths, 1);
    assert_eq!(a.duration, 25);
    assert_eq!(data.summary.total_deaths, 1);
    assert!(data.get_active_zone().is_none());
}

#[test]
fn zones_by_time_longest_first_and_stable() {
    let mut data = CharacterTrackingData::new("c1".to_string());
    for (id, secs) in [("Zone_a", 10u64), ("Zone_b", 30), ("Zone_c", 10), ("Zone_d", 50)] {
        let mut z = zone(id, id, LocationType::Zone);
        z.deactivate();
        z.add_time(secs);
        data.upsert_zone(z);
    }
    let ids: Vec<&str> = data.get_zones_by_time().iter().map(|z| z.location_id.as_str()).collect();
    assert_eq!(ids, vec!["Zone_d", "Zone_b", "Zone_a", "Zone_c"]);
}

#[test]
fn detector_classifies_by_keywords() {
    let d = detector();
    assert_eq!(d.detect_scene_type("Kingsmarch Hideout"), LocationType::Hideout);
    assert_eq!(d.detect_scene_type("Act 2"), LocationType::Act);
    assert_eq!(d.detect_scene_type("The Coast"), LocationType::Zone);
    assert!(d.is_zone_content("anything"));
    assert!(d.is_hideout_content("my hideout"));
    assert!(!d.is_act_content("The Coast"));
}

#[test]
fn location_ids_are_typed_and_lower_case() {
    assert_eq!(generate_location_id("The Coast", LocationType::Zone), "Zone_the_coast");
    assert_eq!(generate_location_id("Act 1", LocationType::Act), "Act_act_1");
}

#[test]
fn repeated_scene_is_not_a_change() {
    let d = detector();
    let (event, data) = process_scene_content(&d, None, "c1", "The Coast");
    assert!(matches!(event, Some(SceneChangeEvent::Zone { .. })));
    let data = data.unwrap();
    assert_eq!(data.character_id, "c1");
    assert_eq!(data.get_active_zone().unwrap().location_id, "Zone_the_coast");
    let some = Some(data);
    assert!(!validate_scene_change(&some, LocationType::Zone, "The Coast"));
    assert!(validate_scene_change(&some, LocationType::Zone, "Clearfell"));
    assert!(validate_scene_change(&some, LocationType::Act, "The Coast"));
    let (again, same) = process_scene_content(&d, some, "c1", "The Coast");
    assert!(again.is_none());
    assert_eq!(same.unwrap().zones.len(), 1);
}

#[test]
fn act_scene_sets_the_act() {
    let d = detector();
    let (event, data) = process_scene_content(&d, None, "c1", "Act 1");
    assert!(matches!(event, Some(SceneChangeEvent::Act { .. })));
    let loc = data.unwrap().current_location.unwrap();
    assert!(loc.scene.is_none());
    assert_eq!(loc.act.unwrap(), "Act 1");
}

#[test]
fn tracking_messages() {
    let z = zone("Zone_a", "The Coast", LocationType::Zone);
    let e = CharacterTrackingEvent::ZoneEntered(ZoneEntered::new("c1".to_string(), z));
    assert_eq!(tracking_event_message(&e), "Zone entered: The Coast (Zone)");
    let l = CharacterTrackingEvent::CharacterTrackingDataLoaded(
        CharacterTrackingDataLoaded::new("c1".to_string(), 12),
    );
    assert_eq!(tracking_event_message(&l), "Character tracking data loaded: 12 zones");
    let err = CharacterTrackingError::ZoneNotFound {
        zone_id: "Zone_a".to_string(),
        character_id: "c1".to_string(),
    };
    assert_eq!(err.to_string(), "Zone not found: Zone_a for character c1");
}

#[test]
fn full_counters_stop_a_scene_line() {
    let d = detector();
    let mut data = CharacterTrackingData::new("c1".to_string());
    let mut z = zone("Zone_the_coast", "The Coast", LocationType::Zone);
    z.deactivate();
    z.visits = u32::MAX;
    data.upsert_zone(z);
    assert!(!data.can_enter("Zone_the_coast"));
    assert!(data.can_enter("Zone_clearfell"));
    match process_scene_line(&d, Some(data), "c1", "The Coast") {
        SceneLineOutcome::CountersFull(back) => assert_eq!(back.zones.len(), 1),
        other => panic!("unexpected outcome {other:?}"),
    }
    match process_scene_line(&d, None, "c1", "The Coast") {
        SceneLineOutcome::Processed(event, data) => {
            assert!(event.is_some());
            assert!(data.is_some());
        }
        other => panic!("unexpected outcome {other:?}"),
    }
}
