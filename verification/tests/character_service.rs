use poe2_overlord::domain::character::models::{
    Ascendency, CharacterClass, CharacterData, CharacterUpdateParams, League, LocationState,
    ZoneMetadata,
};
use poe2_overlord::domain::character::service::{
    check_ascendency, check_character_level, check_name_available, enrich_character_data,
    enrich_location, plan_character_creation, plan_profile_update, summarize_character,
};

fn params(level: u32, ascendency: Ascendency) -> CharacterUpdateParams {
    CharacterUpdateParams {
        name: "Hero".to_string(),
        class: CharacterClass::Warrior,
        ascendency,
        league: League::Standard,
        hardcore: true,
        solo_self_found: false,
        level,
    }
}

#[test]
fn creation_checks_ascendency_then_name() {
    let err = plan_character_creation(
        "Hero".to_string(),
        CharacterClass::Warrior,
        Ascendency::SmithOfKatava,
        League::Standard,
        false,
        false,
        true,
        false,
    );
    assert!(err.is_ok() == false);
    assert_eq!(
        err.unwrap_err().to_string(),
        "Validation error: validate_unique_name: Character name 'Hero' is already taken"
    );
    let err = plan_character_creation(
        "Hero".to_string(),
        CharacterClass::Warrior,
        Ascendency::BloodMage,
        League::Standard,
        false,
        false,
        true,
        false,
    );
    assert_eq!(
        err.unwrap_err().to_string(),
        "Validation error: validate_ascendency: Ascendency 'BloodMage' is not valid for class 'Warrior'"
    );
}

#[test]
fn first_character_becomes_active() {
    let plan = plan_character_creation(
        "Hero".to_string(),
        CharacterClass::Monk,
        Ascendency::Invoker,
        League::RiseOfTheAbyssal,
        true,
        false,
        false,
        true,
    )
    .unwrap();
    assert!(plan.make_active);
    assert_eq!(plan.character.profile.level, 1);
    assert_eq!(plan.character.summary.character_id, plan.character.id);
    assert_eq!(plan.character.id.len(), 36);
}

#[test]
fn profile_update_checks_in_order() {
    assert_eq!(
        plan_profile_update(params(0, Ascendency::Lich), false).unwrap_err().to_string(),
        "Validation error: validate_ascendency: Ascendency 'Lich' is not valid for class 'Warrior'"
    );
    assert_eq!(
        plan_profile_update(params(0, Ascendency::Titan), false).unwrap_err().to_string(),
        "Validation error: validate_unique_name: Character name 'Hero' is already taken"
    );
    assert_eq!(
        plan_profile_update(params(101, Ascendency::Titan), true).unwrap_err().to_string(),
        "Validation error: validate_level: Character level must be between 1 and 100, got 101"
    );
    let profile = plan_profile_update(params(100, Ascendency::Titan), true).unwrap();
    assert_eq!(profile.level, 100);
    assert!(profile.hardcore);
}

#[test]
fn level_bounds() {
    assert!(check_character_level(1).is_ok());
    assert!(check_character_level(100).is_ok());
    assert_eq!(
        check_character_level(0).unwrap_err().to_string(),
        "Validation error: validate_level: Character level must be between 1 and 100, got 0"
    );
    assert!(check_name_available("A", false).is_ok());
    assert!(check_ascendency(Ascendency::Oracle, CharacterClass::Druid).is_ok());
}

#[test]
fn enrichment_uses_metadata_when_known() {
    let location = Some(LocationState::new("Clearfell".to_string()));
    let meta = ZoneMetadata { act: 1, is_town: false, area_level: Some(2), has_waypoint: true };
    let enriched = enrich_location(&location, Some(meta)).unwrap();
    assert_eq!(enriched.act, 1);
    assert_eq!(enriched.area_level, Some(2));
    assert!(enriched.has_waypoint);
    let minimal = enrich_location(&location, None).unwrap();
    assert_eq!(minimal.act, 0);
    assert!(enrich_location(&None, Some(meta)).is_none());
}

#[test]
fn summaries_mark_the_active_character() {
    let mut c = CharacterData::new(
        "id-1".to_string(),
        "Hero".to_string(),
        CharacterClass::Witch,
        Ascendency::Lich,
        League::Standard,
        false,
        false,
    );
    c.current_location = Some(LocationState::new("Clearfell".to_string()));
    let s = summarize_character(c.clone(), Some("id-1"), None);
    assert!(s.is_active);
    assert_eq!(s.current_location.unwrap().zone_name, "Clearfell");
    let s2 = summarize_character(c.clone(), Some("id-2"), None);
    assert!(!s2.is_active);
    let s3 = summarize_character(c.clone(), None, None);
    assert!(!s3.is_active);
    let r = enrich_character_data(c, None);
    assert_eq!(r.name, "Hero");
    assert_eq!(r.current_location.unwrap().act, 0);
}
