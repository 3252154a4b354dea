//! Character tracking decisions: what kind of scene a log line names, whether
//! it is an actual change of location, and how the tracking data follows it.

use vstd::prelude::*;
use crate::text::{
    contains_text, spaces_to_underscores, unicode_lowercase, to_lowercase, str_contains,
    replace_spaces_with_underscores,
};
use crate::time::now_rfc3339;
use super::models::{
    CharacterTrackingData, LocationState, LocationType, location_type_name, scene_text, act_text,
    can_enter_zone, is_first_with_id, unique_ids, at_most_one_active,
};

verus! {

/// Keywords that classify scene text.
pub struct SceneTypeConfig {
    /// Text containing one of these is a hideout.
    pub hideout_keywords: Vec<String>,
    /// Text containing one of these is an act.
    pub act_keywords: Vec<String>,
}

/// Some keyword occurs in the text.
pub open spec fn any_keyword_in(keywords: Seq<String>, text: Seq<char>) -> bool {
    exists|k: int| 0 <= k < keywords.len() && contains_text(text, #[trigger] keywords[k]@)
}

/// The location type of scene text under a configuration: hideout keywords
/// first, then act keywords, otherwise a zone. Matching is on the lower-cased
/// text.
pub open spec fn scene_type_of(config: SceneTypeConfig, content: Seq<char>) -> LocationType {
    let lower = unicode_lowercase(content);
    if any_keyword_in(config.hideout_keywords@, lower) {
        LocationType::Hideout
    } else if any_keyword_in(config.act_keywords@, lower) {
        LocationType::Act
    } else {
        LocationType::Zone
    }
}

/// Whether some keyword of the list occurs in the text.
fn contains_any_keyword(keywords: &Vec<String>, text: &str) -> (res: bool)
    ensures
        res == any_keyword_in(keywords@, text@),
{
    let n = keywords.len();
    let mut k: usize = 0;
    while k < n
        invariant
            n == keywords@.len(),
            k <= n,
            forall|j: int| 0 <= j < k ==> !contains_text(text@, #[trigger] keywords@[j]@),
        decreases n - k,
    {
        if str_contains(text, keywords[k].as_str()) {
            return true;
        }
        k = k + 1;
    }
    false
}

/// Classifies scene text.
pub trait SceneTypeDetector {
    /// The location type of scene text.
    fn detect_scene_type(&self, content: &str) -> LocationType;

    /// Whether lower-cased scene text names a hideout.
    fn is_hideout_content(&self, content: &str) -> bool;

    /// Whether lower-cased scene text names an act.
    fn is_act_content(&self, content: &str) -> bool;

    /// Whether scene text names a zone: every text does.
    fn is_zone_content(&self, content: &str) -> bool;
}

/// Scene classification by keyword matching.
pub struct SimpleSceneTypeDetector {
    pub config: SceneTypeConfig,
}

impl SimpleSceneTypeDetector {
    /// A detector with the given keywords.
    pub fn new(config: SceneTypeConfig) -> (res: SimpleSceneTypeDetector)
        ensures
            res.config == config,
    {
        SimpleSceneTypeDetector { config }
    }

    /// The keywords in use.
    pub fn get_scene_type_config(&self) -> (res: &SceneTypeConfig)
        ensures
            *res == self.config,
    {
        &self.config
    }

    /// Replaces the keywords.
    pub fn update_scene_type_config(&mut self, config: SceneTypeConfig)
        ensures
            final(self).config == config,
    {
        self.config = config;
    }
}

impl SceneTypeDetector for SimpleSceneTypeDetector {
    /// Hideout keywords are checked first, then act keywords; anything else is
    /// a zone.
    fn detect_scene_type(&self, content: &str) -> (res: LocationType)
        ensures
            res == scene_type_of(self.config, content@),
    {
        let lower = to_lowercase(content);
        if self.is_hideout_content(lower.as_str()) {
            return LocationType::Hideout;
        }
        if self.is_act_content(lower.as_str()) {
            return LocationType::Act;
        }
        LocationType::Zone
    }

    fn is_hideout_content(&self, content: &str) -> (res: bool)
        ensures
            res == any_keyword_in(self.config.hideout_keywords@, content@),
    {
        contains_any_keyword(&self.config.hideout_keywords, content)
    }

    fn is_act_content(&self, content: &str) -> (res: bool)
        ensures
            res == any_keyword_in(self.config.act_keywords@, content@),
    {
        contains_any_keyword(&self.config.act_keywords, content)
    }

    fn is_zone_content(&self, content: &str) -> (res: bool)
        ensures
            res,
    {
        true
    }
}

/// The location id of a named location: the type's name, an underscore, and
/// the lower-cased name with spaces turned to underscores.
pub open spec fn location_id_of(name: Seq<char>, location_type: LocationType) -> Seq<char> {
    location_type_name(location_type) + "_"@ + spaces_to_underscores(unicode_lowercase(name))
}

/// Builds the location id of a named location.
pub fn generate_location_id(location_name: &str, location_type: LocationType) -> (res: String)
    ensures
        res@ == location_id_of(location_name@, location_type),
{
    let lower = to_lowercase(location_name);
    let tail = replace_spaces_with_underscores(lower.as_str());
    let head = location_type.to_string().concat("_");
    head.concat(tail.as_str())
}

/// A change of scene read from the game log.
#[derive(Debug)]
pub enum SceneChangeEvent {
    Hideout { hideout_name: String, timestamp: String },
    Act { act_name: String, timestamp: String },
    Zone { zone_name: String, timestamp: String },
}

impl SceneChangeEvent {
    /// The name the event carries.
    pub open spec fn name(self) -> Seq<char> {
        match self {
            SceneChangeEvent::Hideout { hideout_name, .. } => hideout_name@,
            SceneChangeEvent::Act { act_name, .. } => act_name@,
            SceneChangeEvent::Zone { zone_name, .. } => zone_name@,
        }
    }

    /// The location type of the event.
    pub open spec fn location_type(self) -> LocationType {
        match self {
            SceneChangeEvent::Hideout { .. } => LocationType::Hideout,
            SceneChangeEvent::Act { .. } => LocationType::Act,
            SceneChangeEvent::Zone { .. } => LocationType::Zone,
        }
    }
}

/// The event for scene text of a given type, stamped now.
pub fn create_scene_change_event(content: &str, location_type: LocationType) -> (res:
    SceneChangeEvent)
    ensures
        res.name() == content@,
        res.location_type() == location_type,
{
    let timestamp = now_rfc3339();
    match location_type {
        LocationType::Hideout => SceneChangeEvent::Hideout {
            hideout_name: String::from_str(content),
            timestamp,
        },
        LocationType::Act => SceneChangeEvent::Act { act_name: String::from_str(content), timestamp },
        LocationType::Zone => SceneChangeEvent::Zone {
            zone_name: String::from_str(content),
            timestamp,
        },
    }
}

/// Whether a scene of a given type and name is an actual change for the
/// tracked data: an act always is; a hideout or zone is unless the current
/// scene already has that name.
pub open spec fn is_actual_change(
    data: Option<CharacterTrackingData>,
    location_type: LocationType,
    name: Seq<char>,
) -> bool {
    match location_type {
        LocationType::Act => true,
        _ => match data {
            Some(d) => match d.current_location {
                Some(loc) => scene_text(loc) != Some(name),
                None => true,
            },
            None => true,
        },
    }
}

/// Decides whether a scene of a given type and name is an actual change.
pub fn validate_scene_change(
    data: &Option<CharacterTrackingData>,
    location_type: LocationType,
    name: &str,
) -> (res: bool)
    ensures
        res == is_actual_change(*data, location_type, name@),
{
    match location_type {
        LocationType::Act => true,
        _ => match data {
            Some(d) => match &d.current_location {
                Some(loc) => match &loc.scene {
                    Some(s) => !crate::text::str_equals(s.as_str(), name),
                    None => true,
                },
                None => true,
            },
            None => true,
        },
    }
}

/// A scene line is a change of location exactly when it names an act, or
/// when it names a hideout or zone other than the scene the character is
/// in: reading the scene the character is already in again is no change.
pub proof fn lemma_actual_change_iff_new_scene(
    data: Option<CharacterTrackingData>,
    location_type: LocationType,
    name: Seq<char>,
)
    ensures
        is_actual_change(data, location_type, name) <==> (location_type == LocationType::Act
            || !(data matches Some(d) && d.current_location matches Some(loc)
            && loc.scene matches Some(s) && s@ == name)),
{
}

/// A scene line that repeats the hideout or zone the character is in changes
/// nothing: no event comes out and the data is handed back as it was, so no
/// visit is counted.
pub proof fn lemma_repeated_scene_changes_nothing(
    config: SceneTypeConfig,
    d: CharacterTrackingData,
    character_id: Seq<char>,
    content: Seq<char>,
    res: (Option<SceneChangeEvent>, Option<CharacterTrackingData>),
)
    requires
        scene_processed(config, Some(d), character_id, content, res),
        scene_type_of(config, content) != LocationType::Act,
        d.current_location matches Some(loc) && loc.scene matches Some(s) && s@ == content,
    ensures
        res.0 is None,
        res.1 == Some(d),
{
    lemma_actual_change_iff_new_scene(Some(d), scene_type_of(config, content), content);
}

/// What processing a scene line gives: `res.0` is the change event, if the
/// line is an actual change, and `res.1` the tracking data. Without a change
/// the data is as it was; with one, the data (new data for the character if
/// there was none) has the scene as its current location and the scene's
/// zone as its entered, active zone.
pub open spec fn scene_processed(
    config: SceneTypeConfig,
    data: Option<CharacterTrackingData>,
    character_id: Seq<char>,
    content: Seq<char>,
    res: (Option<SceneChangeEvent>, Option<CharacterTrackingData>),
) -> bool {
    let t = scene_type_of(config, content);
    let id = location_id_of(content, t);
    &&& res.0 is Some <==> is_actual_change(data, t, content)
    &&& res.0 is None ==> res.1 == data
    &&& res.0 matches Some(e) ==> {
        &&& e.name() == content
        &&& e.location_type() == t
        &&& res.1 matches Some(d2) && {
            &&& d2.well_formed()
            &&& (data matches Some(d) ==> d2.character_id == d.character_id)
            &&& (data is None ==> d2.character_id@ == character_id)
            &&& d2.current_location matches Some(loc) && loc.location_type == t && (if t
                == LocationType::Act {
                scene_text(loc) is None && act_text(loc) == Some(content)
            } else {
                act_text(loc) is None && scene_text(loc) == Some(content)
            })
            &&& exists|i: int|
                is_first_with_id(d2.zones@, id, i) && d2.zones@[i].is_active
            &&& (data matches Some(d) && unique_ids(d.zones@) && at_most_one_active(
                d.zones@,
            )) ==> forall|j: int|
                0 <= j < d2.zones@.len() ==> (d2.zones@[j].is_active
                    <==> d2.zones@[j].location_id@ == id)
        }
    }
}

/// Processes one scene line of the game log for a character. The scene's type
/// is detected; if it is not an actual change, no event is returned and the
/// data is handed back as it was. Otherwise the data (or new data for the
/// character) gets the scene as its current location, the scene's zone is
/// entered, and the change event is returned with the data.
pub fn process_scene_content(
    detector: &SimpleSceneTypeDetector,
    data: Option<CharacterTrackingData>,
    character_id: &str,
    content: &str,
) -> (res: (Option<SceneChangeEvent>, Option<CharacterTrackingData>))
    requires
        data matches Some(d) ==> can_enter_zone(
            d.zones@,
            location_id_of(content@, scene_type_of(detector.config, content@)),
        ),
    ensures
        scene_processed(detector.config, data, character_id@, content@, res),
{
    let t = detector.detect_scene_type(content);
    let event = create_scene_change_event(content, t);
    if !validate_scene_change(&data, t, content) {
        return (None, data);
    }
    let mut d = match data {
        Some(d) => d,
        None => CharacterTrackingData::new(String::from_str(character_id)),
    };
    let location = match t {
        LocationType::Act => LocationState::new_for_location(
            None,
            Some(String::from_str(content)),
            false,
            LocationType::Act,
        ),
        _ => LocationState::new_for_location(Some(String::from_str(content)), None, false, t),
    };
    d.current_location = Some(location);
    let id = generate_location_id(content, t);
    let act = match t {
        LocationType::Act => Some(String::from_str(content)),
        _ => None,
    };
    d.enter_zone(id, String::from_str(content), t, act, false);
    (Some(event), Some(d))
}

/// The outcome of processing a scene line whose counters were checked first.
#[derive(Debug)]
pub enum SceneLineOutcome {
    /// The line was processed: the change event, if it was a change, and the
    /// tracking data.
    Processed(Option<SceneChangeEvent>, Option<CharacterTrackingData>),
    /// Entering the scene's zone would overflow a counter of the data, which
    /// is handed back unchanged.
    CountersFull(CharacterTrackingData),
}

/// Processes one scene line like `process_scene_content`, after checking
/// that entering the scene's zone keeps every counter of the data in range;
/// where it would not, nothing is processed and the data is handed back.
pub fn process_scene_line(
    detector: &SimpleSceneTypeDetector,
    data: Option<CharacterTrackingData>,
    character_id: &str,
    content: &str,
) -> (res: SceneLineOutcome)
    ensures
        ({
            let id = location_id_of(content@, scene_type_of(detector.config, content@));
            &&& (data matches Some(d) && !can_enter_zone(d.zones@, id)) <==> res is CountersFull
            &&& res matches SceneLineOutcome::CountersFull(d2) ==> data == Some(d2)
        }),
        res matches SceneLineOutcome::Processed(event, d2) ==> scene_processed(
            detector.config,
            data,
            character_id@,
            content@,
            (event, d2),
        ),
{
    let t = detector.detect_scene_type(content);
    let id = generate_location_id(content, t);
    let fits = match &data {
        Some(d) => d.can_enter(id.as_str()),
        None => true,
    };
    if !fits {
        match data {
            Some(d) => SceneLineOutcome::CountersFull(d),
            None => SceneLineOutcome::Processed(None, None),
        }
    } else {
        let (event, d2) = process_scene_content(detector, data, character_id, content);
        SceneLineOutcome::Processed(event, d2)
    }
}

} // verus!
