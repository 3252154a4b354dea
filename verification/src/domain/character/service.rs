//! The decisions of the character service: which creations and updates are
//! accepted, what they store, and how a character is shown. Reading and
//! writing the store and publishing events are done by the caller, which
//! hands in what it read (whether a name is taken, the zone metadata, the
//! active character).

use vstd::prelude::*;
use crate::domain::character::models::{
    Ascendency, CharacterClass, CharacterData, CharacterDataResponse, CharacterProfile,
    CharacterSummaryResponse, CharacterUpdateParams, EnrichedLocationState, League,
    LocationState, ZoneMetadata, class_name, class_of_ascendency, is_valid_ascendency_for_class,
    enriched_location, character_response,
};
use crate::errors::{AppError, ErrorKind, operation_message};
use crate::text::{decimal_text, str_equals, u64_to_decimal};
use crate::time::{new_uuid_v4, is_v4_uuid_text};
use crate::domain::zone_tracking::empty_summary;

verus! {

/// The name of an ascendency's variant, as it appears in messages.
pub open spec fn ascendency_variant(a: Ascendency) -> Seq<char> {
    match a {
        Ascendency::Titan => "Titan"@,
        Ascendency::Warbringer => "Warbringer"@,
        Ascendency::SmithOfKatava => "SmithOfKatava"@,
        Ascendency::Stormweaver => "Stormweaver"@,
        Ascendency::Chronomancer => "Chronomancer"@,
        Ascendency::DiscipleOfVarashta => "DiscipleOfVarashta"@,
        Ascendency::Deadeye => "Deadeye"@,
        Ascendency::Pathfinder => "Pathfinder"@,
        Ascendency::Ritualist => "Ritualist"@,
        Ascendency::Amazon => "Amazon"@,
        Ascendency::Invoker => "Invoker"@,
        Ascendency::AcolyteOfChayula => "AcolyteOfChayula"@,
        Ascendency::GemlingLegionnaire => "GemlingLegionnaire"@,
        Ascendency::Tactician => "Tactician"@,
        Ascendency::Witchhunter => "Witchhunter"@,
        Ascendency::BloodMage => "BloodMage"@,
        Ascendency::Infernalist => "Infernalist"@,
        Ascendency::Lich => "Lich"@,
        Ascendency::Shaman => "Shaman"@,
        Ascendency::Oracle => "Oracle"@,
    }
}

/// The message for an ascendency that does not belong to a class.
pub open spec fn ascendency_mismatch_text(a: Ascendency, c: CharacterClass) -> Seq<char> {
    "Ascendency '"@ + ascendency_variant(a) + "' is not valid for class '"@ + class_name(c) + "'"@
}

/// The message for a character name that another character has.
pub open spec fn name_taken_text(name: Seq<char>) -> Seq<char> {
    "Character name '"@ + name + "' is already taken"@
}

/// The message for a level outside 1 to 100.
pub open spec fn level_range_text(level: u32) -> Seq<char> {
    "Character level must be between 1 and 100, got "@ + decimal_text(level as nat)
}

/// `e` is a validation error raised by `operation` with `message`.
pub open spec fn is_validation_error(e: AppError, operation: Seq<char>, message: Seq<char>) -> bool {
    e.kind() == ErrorKind::Validation && e.message() == operation_message(operation, message)
}

/// The variant name of an ascendency.
fn ascendency_variant_text(a: Ascendency) -> (res: &'static str)
    ensures
        res@ == ascendency_variant(a),
{
    match a {
        Ascendency::Titan => "Titan",
        Ascendency::Warbringer => "Warbringer",
        Ascendency::SmithOfKatava => "SmithOfKatava",
        Ascendency::Stormweaver => "Stormweaver",
        Ascendency::Chronomancer => "Chronomancer",
        Ascendency::DiscipleOfVarashta => "DiscipleOfVarashta",
        Ascendency::Deadeye => "Deadeye",
        Ascendency::Pathfinder => "Pathfinder",
        Ascendency::Ritualist => "Ritualist",
        Ascendency::Amazon => "Amazon",
        Ascendency::Invoker => "Invoker",
        Ascendency::AcolyteOfChayula => "AcolyteOfChayula",
        Ascendency::GemlingLegionnaire => "GemlingLegionnaire",
        Ascendency::Tactician => "Tactician",
        Ascendency::Witchhunter => "Witchhunter",
        Ascendency::BloodMage => "BloodMage",
        Ascendency::Infernalist => "Infernalist",
        Ascendency::Lich => "Lich",
        Ascendency::Shaman => "Shaman",
        Ascendency::Oracle => "Oracle",
    }
}

/// Accepts an ascendency that belongs to the class; refuses any other.
pub fn check_ascendency(ascendency: Ascendency, class: CharacterClass) -> (res: Result<(), AppError>)
    ensures
        class_of_ascendency(ascendency) == class <==> res is Ok,
        res matches Err(e) ==> is_validation_error(
            e,
            "validate_ascendency"@,
            ascendency_mismatch_text(ascendency, class),
        ),
{
    if is_valid_ascendency_for_class(&ascendency, &class) {
        Ok(())
    } else {
        let message = String::from_str("Ascendency '").concat(ascendency_variant_text(ascendency)).concat(
            "' is not valid for class '",
        ).concat(class.to_string().as_str()).concat("'");
        Err(AppError::validation_error("validate_ascendency", message.as_str()))
    }
}

/// Refuses a name that another character has.
pub fn check_name_available(name: &str, name_taken: bool) -> (res: Result<(), AppError>)
    ensures
        res is Ok <==> !name_taken,
        res matches Err(e) ==> is_validation_error(e, "validate_unique_name"@, name_taken_text(name@)),
{
    if name_taken {
        let message = String::from_str("Character name '").concat(name).concat("' is already taken");
        Err(AppError::validation_error("validate_unique_name", message.as_str()))
    } else {
        Ok(())
    }
}

/// Accepts a character level from 1 to 100.
pub fn check_character_level(level: u32) -> (res: Result<(), AppError>)
    ensures
        res is Ok <==> 1 <= level <= 100,
        res matches Err(e) ==> is_validation_error(e, "validate_level"@, level_range_text(level)),
{
    if level < 1 || level > 100 {
        let message = String::from_str("Character level must be between 1 and 100, got ").concat(
            u64_to_decimal(level as u64).as_str(),
        );
        Err(AppError::validation_error("validate_level", message.as_str()))
    } else {
        Ok(())
    }
}

/// A character about to be created, and whether it becomes the active
/// character (it does when it is the first one).
#[derive(Debug)]
pub struct NewCharacterPlan {
    pub character: CharacterData,
    pub make_active: bool,
}

/// Creates a character: the ascendency must belong to the class, then the
/// name must be free. The character gets a fresh random id, level 1 and an
/// empty record; it becomes active when it is the first character.
pub fn plan_character_creation(
    name: String,
    class: CharacterClass,
    ascendency: Ascendency,
    league: League,
    hardcore: bool,
    solo_self_found: bool,
    name_taken: bool,
    is_first_character: bool,
) -> (res: Result<NewCharacterPlan, AppError>)
    ensures
        class_of_ascendency(ascendency) != class ==> (res matches Err(e) && is_validation_error(
            e,
            "validate_ascendency"@,
            ascendency_mismatch_text(ascendency, class),
        )),
        class_of_ascendency(ascendency) == class && name_taken ==> (res matches Err(e)
            && is_validation_error(e, "validate_unique_name"@, name_taken_text(name@))),
        class_of_ascendency(ascendency) == class && !name_taken ==> (res matches Ok(plan) && {
            let c = plan.character;
            &&& is_v4_uuid_text(c.id@)
            &&& plan.make_active == is_first_character
            &&& c.profile == (CharacterProfile {
                name,
                class,
                ascendency,
                league,
                hardcore,
                solo_self_found,
                level: 1,
            })
            &&& c.summary == empty_summary(c.id)
            &&& c.walkthrough_progress.current_step_id is None
            &&& !c.walkthrough_progress.is_completed
            &&& c.timestamps.last_played is None
            &&& c.current_location is None
        }),
{
    match check_ascendency(ascendency, class) {
        Err(e) => return Err(e),
        Ok(()) => {},
    }
    match check_name_available(name.as_str(), name_taken) {
        Err(e) => return Err(e),
        Ok(()) => {},
    }
    let id = new_uuid_v4();
    let character = CharacterData::new(id, name, class, ascendency, league, hardcore, solo_self_found);
    Ok(NewCharacterPlan { character, make_active: is_first_character })
}

/// The profile an update stores: the ascendency must belong to the class,
/// the name must be unique among the other characters, and the level must
/// be from 1 to 100, checked in that order.
pub fn plan_profile_update(params: CharacterUpdateParams, name_unique: bool) -> (res: Result<CharacterProfile, AppError>)
    ensures
        class_of_ascendency(params.ascendency) != params.class ==> (res matches Err(e)
            && is_validation_error(
            e,
            "validate_ascendency"@,
            ascendency_mismatch_text(params.ascendency, params.class),
        )),
        class_of_ascendency(params.ascendency) == params.class && !name_unique ==> (res matches Err(e)
            && is_validation_error(e, "validate_unique_name"@, name_taken_text(params.name@))),
        class_of_ascendency(params.ascendency) == params.class && name_unique && !(1 <= params.level
            <= 100) ==> (res matches Err(e) && is_validation_error(
            e,
            "validate_level"@,
            level_range_text(params.level),
        )),
        class_of_ascendency(params.ascendency) == params.class && name_unique && 1 <= params.level
            <= 100 ==> res == Ok::<CharacterProfile, AppError>(
            CharacterProfile {
                name: params.name,
                class: params.class,
                ascendency: params.ascendency,
                league: params.league,
                hardcore: params.hardcore,
                solo_self_found: params.solo_self_found,
                level: params.level,
            },
        ),
{
    match check_ascendency(params.ascendency, params.class) {
        Err(e) => return Err(e),
        Ok(()) => {},
    }
    match check_name_available(params.name.as_str(), !name_unique) {
        Err(e) => return Err(e),
        Ok(()) => {},
    }
    match check_character_level(params.level) {
        Err(e) => return Err(e),
        Ok(()) => {},
    }
    Ok(
        CharacterProfile {
            name: params.name,
            class: params.class,
            ascendency: params.ascendency,
            league: params.league,
            hardcore: params.hardcore,
            solo_self_found: params.solo_self_found,
            level: params.level,
        },
    )
}

/// The enriched form of an optional location.
pub open spec fn enriched_current_location(
    location: Option<LocationState>,
    metadata: Option<ZoneMetadata>,
) -> Option<EnrichedLocationState> {
    match location {
        Some(l) => Some(enriched_location(l, metadata)),
        None => None,
    }
}

/// Enriches a character's current location with the metadata of its zone
/// (`metadata` is what the lookup of the zone's name gave).
pub fn enrich_location(location: &Option<LocationState>, metadata: Option<ZoneMetadata>) -> (res: Option<EnrichedLocationState>)
    ensures
        res == enriched_current_location(*location, metadata),
{
    match location {
        None => None,
        Some(l) => match metadata {
            Some(m) => Some(EnrichedLocationState::from_location_and_metadata(l, &m)),
            None => Some(EnrichedLocationState::from_location_minimal(l)),
        },
    }
}

/// The response for a character, its location enriched with the metadata
/// of its zone.
pub fn enrich_character_data(character: CharacterData, metadata: Option<ZoneMetadata>) -> (res: CharacterDataResponse)
    ensures
        res == character_response(character, enriched_current_location(character.current_location, metadata)),
{
    let current_location = enrich_location(&character.current_location, metadata);
    CharacterDataResponse {
        id: character.id,
        name: character.profile.name,
        class: character.profile.class,
        ascendency: character.profile.ascendency,
        league: character.profile.league,
        hardcore: character.profile.hardcore,
        solo_self_found: character.profile.solo_self_found,
        level: character.profile.level,
        created_at: character.timestamps.created_at,
        last_played: character.timestamps.last_played,
        current_location,
        summary: character.summary,
        walkthrough_progress: character.walkthrough_progress,
        last_updated: character.timestamps.last_updated,
    }
}

/// The listing entry for a character: its location enriched, and whether it
/// is the active character (`active_id` is the active character's id).
pub fn summarize_character(
    character: CharacterData,
    active_id: Option<&str>,
    metadata: Option<ZoneMetadata>,
) -> (res: CharacterSummaryResponse)
    ensures
        res.id == character.id,
        res.name == character.profile.name,
        res.class == character.profile.class,
        res.ascendency == character.profile.ascendency,
        res.league == character.profile.league,
        res.hardcore == character.profile.hardcore,
        res.solo_self_found == character.profile.solo_self_found,
        res.level == character.profile.level,
        res.created_at == character.timestamps.created_at,
        res.last_played == character.timestamps.last_played,
        res.last_updated == character.timestamps.last_updated,
        res.current_location == enriched_current_location(character.current_location, metadata),
        res.summary == character.summary,
        res.walkthrough_progress == character.walkthrough_progress,
        res.is_active == (active_id matches Some(a) && a@ == character.id@),
{
    let is_active = match active_id {
        Some(a) => str_equals(a, character.id.as_str()),
        None => false,
    };
    let current_location = enrich_location(&character.current_location, metadata);
    CharacterSummaryResponse {
        id: character.id,
        name: character.profile.name,
        class: character.profile.class,
        ascendency: character.profile.ascendency,
        league: character.profile.league,
        hardcore: character.profile.hardcore,
        solo_self_found: character.profile.solo_self_found,
        level: character.profile.level,
        created_at: character.timestamps.created_at,
        last_played: character.timestamps.last_played,
        last_updated: character.timestamps.last_updated,
        current_location,
        summary: character.summary,
        walkthrough_progress: character.walkthrough_progress,
        is_active,
    }
}

} // verus!
