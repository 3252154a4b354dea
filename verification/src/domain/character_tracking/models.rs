//! Character tracking models: location state, per-zone statistics and the
//! summary derived from them.

use vstd::prelude::*;
use crate::time::{Timestamp, now, elapsed_seconds, elapsed_seconds_between};

verus! {

/// The kind of a tracked location.
#[derive(Debug, Clone, Copy, PartialEq, Eq, Structural, Hash)]
pub enum LocationType {
    /// A playable game zone or area.
    Zone,
    /// A major story act.
    Act,
    /// The player's personal hideout.
    Hideout,
}

/// The display name of a location type.
pub open spec fn location_type_name(t: LocationType) -> Seq<char> {
    match t {
        LocationType::Zone => "Zone"@,
        LocationType::Act => "Act"@,
        LocationType::Hideout => "Hideout"@,
    }
}

impl LocationType {
    /// The display name of this location type.
    pub fn to_string(&self) -> (res: String)
        ensures
            res@ == location_type_name(*self),
    {
        match self {
            LocationType::Zone => String::from_str("Zone"),
            LocationType::Act => String::from_str("Act"),
            LocationType::Hideout => String::from_str("Hideout"),
        }
    }
}

impl Default for LocationType {
    fn default() -> (res: LocationType)
        ensures
            res == LocationType::Zone,
    {
        LocationType::Zone
    }
}

/// Where a character currently is.
#[derive(Debug, Clone)]
pub struct LocationState {
    /// Current scene or zone name (hideout, zone, ...).
    pub scene: Option<String>,
    /// Current act name.
    pub act: Option<String>,
    /// Whether the current location is a town.
    pub is_town: bool,
    /// Type of the current location.
    pub location_type: LocationType,
    /// When the location was last updated.
    pub last_updated: Timestamp,
}

/// The scene text of a location state, if any.
pub open spec fn scene_text(state: LocationState) -> Option<Seq<char>> {
    match state.scene {
        Some(s) => Some(s@),
        None => None,
    }
}

/// The act text of a location state, if any.
pub open spec fn act_text(state: LocationState) -> Option<Seq<char>> {
    match state.act {
        Some(s) => Some(s@),
        None => None,
    }
}

impl LocationState {
    /// A location state with no scene and no act, of type `Zone`, stamped now.
    pub fn new() -> (res: LocationState)
        ensures
            res.scene is None,
            res.act is None,
            !res.is_town,
            res.location_type == LocationType::Zone,
    {
        LocationState {
            scene: None,
            act: None,
            is_town: false,
            location_type: LocationType::Zone,
            last_updated: now(),
        }
    }

    /// A location state for the given location, stamped now.
    pub fn new_for_location(
        scene: Option<String>,
        act: Option<String>,
        is_town: bool,
        location_type: LocationType,
    ) -> (res: LocationState)
        ensures
            res.scene == scene,
            res.act == act,
            res.is_town == is_town,
            res.location_type == location_type,
    {
        LocationState { scene, act, is_town, location_type, last_updated: now() }
    }

    /// Moves to a scene. Returns whether anything changed: the scene differs
    /// from the current one or the location type does. On a change the scene
    /// and type are set and the state is stamped now; otherwise nothing moves.
    pub fn update_scene(&mut self, new_scene: String, location_type: LocationType) -> (changed:
        bool)
        ensures
            changed == (scene_text(*old(self)) != Some(new_scene@) || old(self).location_type
                != location_type),
            changed ==> final(self).scene == Some(new_scene) && final(self).location_type
                == location_type && final(self).act == old(self).act && final(self).is_town
                == old(self).is_town,
            !changed ==> *final(self) == *old(self),
    {
        let same_scene = match &self.scene {
            Some(s) => *s == new_scene,
            None => false,
        };
        if !same_scene || self.location_type != location_type {
            self.scene = Some(new_scene);
            self.location_type = location_type;
            self.last_updated = now();
            true
        } else {
            false
        }
    }

    /// Moves to an act. Returns whether the act differs from the current one;
    /// on a change the act is set and the state is stamped now.
    pub fn update_act(&mut self, new_act: String) -> (changed: bool)
        ensures
            changed == (act_text(*old(self)) != Some(new_act@)),
            changed ==> final(self).act == Some(new_act) && final(self).scene == old(self).scene
                && final(self).location_type == old(self).location_type && final(self).is_town
                == old(self).is_town,
            !changed ==> *final(self) == *old(self),
    {
        let same_act = match &self.act {
            Some(a) => *a == new_act,
            None => false,
        };
        if !same_act {
            self.act = Some(new_act);
            self.last_updated = now();
            true
        } else {
            false
        }
    }

    /// Clears scene and act, sets the type back to `Zone` and stamps the state
    /// now. The town flag is kept.
    pub fn reset(&mut self)
        ensures
            final(self).scene is None,
            final(self).act is None,
            final(self).location_type == LocationType::Zone,
            final(self).is_town == old(self).is_town,
    {
        self.scene = None;
        self.act = None;
        self.location_type = LocationType::Zone;
        self.last_updated = now();
    }

    /// The current scene name, if any.
    pub fn get_current_scene(&self) -> (res: Option<&String>)
        ensures
            match res {
                Some(s) => self.scene == Some(*s),
                None => self.scene is None,
            },
    {
        match &self.scene {
            Some(s) => Some(s),
            None => None,
        }
    }

    /// The current act name, if any.
    pub fn get_current_act(&self) -> (res: Option<&String>)
        ensures
            match res {
                Some(a) => self.act == Some(*a),
                None => self.act is None,
            },
    {
        match &self.act {
            Some(a) => Some(a),
            None => None,
        }
    }
}

/// Aggregated statistics for one zone or location.
#[derive(Debug)]
pub struct ZoneStats {
    /// Unique identifier of the location.
    pub location_id: String,
    /// Human-readable name of the location.
    pub location_name: String,
    /// Type of the location.
    pub location_type: LocationType,
    /// Act the zone belongs to.
    pub act: Option<String>,
    /// Whether the zone is a town.
    pub is_town: bool,
    /// Total time spent in the zone, in seconds.
    pub duration: u64,
    /// Number of deaths in the zone.
    pub deaths: u32,
    /// Number of visits to the zone.
    pub visits: u32,
    /// First visit.
    pub first_visited: Timestamp,
    /// Most recent visit.
    pub last_visited: Timestamp,
    /// Whether the character is in this zone now.
    pub is_active: bool,
    /// When the character entered the zone, while its timer runs.
    pub entry_timestamp: Option<Timestamp>,
    /// Level of the zone, as reported by the game log.
    pub zone_level: Option<u32>,
}

/// The seconds a stopped timer adds to a zone with `duration`: the whole
/// seconds elapsed from `entry` to `at`, as many as fit in the duration.
pub open spec fn timer_time_added(duration: u64, entry: Timestamp, at: Timestamp) -> int {
    let room = u64::MAX - duration;
    if elapsed_seconds(at, entry) <= room {
        elapsed_seconds(at, entry)
    } else {
        room
    }
}

/// A timer stopped `n` whole seconds after it started adds `n` seconds (as
/// many as fit), and one stopped no later than it started adds nothing:
/// time is counted forward from the entry.
pub proof fn lemma_timer_counts_forward(duration: u64, entry: Timestamp, n: int, nanos: u32)
    requires
        0 <= n,
        entry.secs + n <= i64::MAX,
        entry.nanos <= nanos < 1_000_000_000,
    ensures
        timer_time_added(duration, entry, Timestamp { secs: (entry.secs + n) as i64, nanos })
            == if n <= u64::MAX - duration { n } else { u64::MAX - duration },
        timer_time_added(duration, Timestamp { secs: (entry.secs + n) as i64, nanos }, entry) == 0,
{
    let at = Timestamp { secs: (entry.secs + n) as i64, nanos };
    let d = at.total_nanos() - entry.total_nanos();
    assert(d == n * 1_000_000_000 + (nanos - entry.nanos));
    assert(d / 1_000_000_000 == n) by (nonlinear_arith)
        requires
            d == n * 1_000_000_000 + (nanos - entry.nanos),
            0 <= nanos - entry.nanos < 1_000_000_000,
            0 <= n,
    ;
    assert(n <= u64::MAX) by (nonlinear_arith)
        requires
            n <= i64::MAX - entry.secs,
            entry.secs >= i64::MIN,
    ;
}

/// The identifying and descriptive fields of two zone records agree.
pub open spec fn same_identity(a: ZoneStats, b: ZoneStats) -> bool {
    &&& a.location_id == b.location_id
    &&& a.location_name == b.location_name
    &&& a.location_type == b.location_type
    &&& a.act == b.act
    &&& a.is_town == b.is_town
    &&& a.first_visited == b.first_visited
    &&& a.zone_level == b.zone_level
}

impl ZoneStats {
    /// New statistics for a location: nothing counted yet, active, its timer
    /// started now, first and last visit now.
    pub fn new(
        location_id: String,
        location_name: String,
        location_type: LocationType,
        act: Option<String>,
        is_town: bool,
    ) -> (res: ZoneStats)
        ensures
            res.location_id == location_id,
            res.location_name == location_name,
            res.location_type == location_type,
            res.act == act,
            res.is_town == is_town,
            res.duration == 0,
            res.deaths == 0,
            res.visits == 0,
            res.is_active,
            res.first_visited == res.last_visited,
            res.entry_timestamp == Some(res.first_visited),
            res.zone_level is None,
    {
        let t = now();
        ZoneStats {
            location_id,
            location_name,
            location_type,
            act,
            is_town,
            duration: 0,
            deaths: 0,
            visits: 0,
            first_visited: t,
            last_visited: t,
            is_active: true,
            entry_timestamp: Some(t),
            zone_level: None,
        }
    }

    /// Adds time to the zone and stamps the visit now.
    pub fn add_time(&mut self, seconds: u64)
        requires
            old(self).duration + seconds <= u64::MAX,
        ensures
            final(self).duration == old(self).duration + seconds,
            same_identity(*final(self), *old(self)),
            final(self).deaths == old(self).deaths,
            final(self).visits == old(self).visits,
            final(self).is_active == old(self).is_active,
            final(self).entry_timestamp == old(self).entry_timestamp,
    {
        self.duration = self.duration + seconds;
        self.last_visited = now();
    }

    /// Records a death in the zone and stamps the visit now.
    pub fn record_death(&mut self)
        requires
            old(self).deaths < u32::MAX,
        ensures
            final(self).deaths == old(self).deaths + 1,
            same_identity(*final(self), *old(self)),
            final(self).duration == old(self).duration,
            final(self).visits == old(self).visits,
            final(self).is_active == old(self).is_active,
            final(self).entry_timestamp == old(self).entry_timestamp,
    {
        self.deaths = self.deaths + 1;
        self.last_visited = now();
    }

    /// Records a visit to the zone and stamps it now.
    pub fn record_visit(&mut self)
        requires
            old(self).visits < u32::MAX,
        ensures
            final(self).visits == old(self).visits + 1,
            same_identity(*final(self), *old(self)),
            final(self).duration == old(self).duration,
            final(self).deaths == old(self).deaths,
            final(self).is_active == old(self).is_active,
            final(self).entry_timestamp == old(self).entry_timestamp,
    {
        self.visits = self.visits + 1;
        self.last_visited = now();
    }

    /// The character enters the zone: it becomes active and a visit is counted.
    pub fn activate(&mut self)
        requires
            old(self).visits < u32::MAX,
        ensures
            final(self).is_active,
            final(self).visits == old(self).visits + 1,
            same_identity(*final(self), *old(self)),
            final(self).duration == old(self).duration,
            final(self).deaths == old(self).deaths,
            final(self).entry_timestamp == old(self).entry_timestamp,
    {
        self.is_active = true;
        self.record_visit();
    }

    /// The character leaves the zone: it becomes inactive, stamped now.
    pub fn deactivate(&mut self)
        ensures
            !final(self).is_active,
            same_identity(*final(self), *old(self)),
            final(self).duration == old(self).duration,
            final(self).deaths == old(self).deaths,
            final(self).visits == old(self).visits,
            final(self).entry_timestamp == old(self).entry_timestamp,
    {
        self.is_active = false;
        self.last_visited = now();
    }

    /// Starts the zone timer now.
    pub fn start_timer(&mut self)
        ensures
            final(self).entry_timestamp is Some,
            same_identity(*final(self), *old(self)),
            final(self).duration == old(self).duration,
            final(self).deaths == old(self).deaths,
            final(self).visits == old(self).visits,
            final(self).is_active == old(self).is_active,
            final(self).last_visited == old(self).last_visited,
    {
        self.entry_timestamp = Some(now());
    }

    /// Stops the zone timer at the instant `at`: the whole seconds since entry
    /// are added to the duration and returned, and the timer is cleared. With
    /// no timer running nothing changes and 0 is returned.
    pub fn stop_timer_and_add_time_at(&mut self, at: Timestamp) -> (spent: u64)
        requires
            old(self).entry_timestamp matches Some(entry) ==> old(self).duration
                + elapsed_seconds(at, entry) <= u64::MAX,
        ensures
            match old(self).entry_timestamp {
                Some(entry) => {
                    &&& spent == elapsed_seconds(at, entry)
                    &&& final(self).duration == old(self).duration + spent
                    &&& final(self).entry_timestamp is None
                    &&& same_identity(*final(self), *old(self))
                    &&& final(self).deaths == old(self).deaths
                    &&& final(self).visits == old(self).visits
                    &&& final(self).is_active == old(self).is_active
                },
                None => spent == 0 && *final(self) == *old(self),
            },
    {
        match self.entry_timestamp {
            Some(entry) => {
                let spent = elapsed_seconds_between(at, entry);
                self.add_time(spent);
                self.entry_timestamp = None;
                spent
            },
            None => 0,
        }
    }

    /// Stops the zone timer now: the whole seconds since entry are added to
    /// the duration and returned, and the timer is cleared. With no timer
    /// running nothing changes and 0 is returned. A duration that would pass
    /// `u64::MAX` stops there.
    pub fn stop_timer_and_add_time(&mut self) -> (spent: u64)
        ensures
            old(self).entry_timestamp is None ==> spent == 0 && *final(self) == *old(self),
            old(self).entry_timestamp is Some ==> {
                &&& final(self).duration == old(self).duration + spent
                &&& final(self).entry_timestamp is None
                &&& same_identity(*final(self), *old(self))
                &&& final(self).deaths == old(self).deaths
                &&& final(self).visits == old(self).visits
                &&& final(self).is_active == old(self).is_active
            },
            old(self).entry_timestamp matches Some(entry) ==> exists|at: Timestamp|
                spent == #[trigger] timer_time_added(old(self).duration, entry, at),
    {
        let t = now();
        self.stop_timer_and_add_capped_time_at(t)
    }

    /// Stops the zone timer at the instant `at`: the whole seconds from the
    /// entry to `at`, as many as the duration has room for, are added to the
    /// duration and returned, and the timer is cleared. With no timer running
    /// nothing changes and 0 is returned.
    pub fn stop_timer_and_add_capped_time_at(&mut self, at: Timestamp) -> (spent: u64)
        ensures
            old(self).entry_timestamp is None ==> spent == 0 && *final(self) == *old(self),
            old(self).entry_timestamp matches Some(entry) ==> {
                &&& spent == timer_time_added(old(self).duration, entry, at)
                &&& final(self).duration == old(self).duration + spent
                &&& final(self).entry_timestamp is None
                &&& same_identity(*final(self), *old(self))
                &&& final(self).deaths == old(self).deaths
                &&& final(self).visits == old(self).visits
                &&& final(self).is_active == old(self).is_active
            },
    {
        match self.entry_timestamp {
            Some(entry) => {
                let elapsed = elapsed_seconds_between(at, entry);
                let room = u64::MAX - self.duration;
                let spent = if elapsed <= room { elapsed } else { room };
                self.add_time(spent);
                self.entry_timestamp = None;
                spent
            },
            None => 0,
        }
    }

    /// Whole seconds spent in the zone since its timer started, at the instant
    /// `at`; 0 with no timer running.
    pub fn get_current_time_spent_at(&self, at: Timestamp) -> (spent: u64)
        ensures
            spent == match self.entry_timestamp {
                Some(entry) => elapsed_seconds(at, entry),
                None => 0,
            },
    {
        match self.entry_timestamp {
            Some(entry) => elapsed_seconds_between(at, entry),
            None => 0,
        }
    }

    /// Whole seconds spent in the zone since its timer started, now; 0 with no
    /// timer running. The clock reading is not known to the contract: with a
    /// timer running, the result is the elapsed time since the entry at the
    /// instant the clock gave.
    pub fn get_current_time_spent(&self) -> (spent: u64)
        ensures
            self.entry_timestamp is None ==> spent == 0,
            self.entry_timestamp matches Some(entry) ==> exists|at: Timestamp|
                spent == #[trigger] elapsed_seconds(at, entry),
    {
        let t = now();
        self.get_current_time_spent_at(t)
    }

    /// Sets the level of the zone.
    pub fn update_zone_level(&mut self, level: u32)
        ensures
            final(self).zone_level == Some(level),
            final(self).location_id == old(self).location_id,
            final(self).location_name == old(self).location_name,
            final(self).location_type == old(self).location_type,
            final(self).duration == old(self).duration,
            final(self).deaths == old(self).deaths,
            final(self).visits == old(self).visits,
            final(self).is_active == old(self).is_active,
            final(self).entry_timestamp == old(self).entry_timestamp,
    {
        self.zone_level = Some(level);
    }
}

/// Total time over a sequence of zones.
pub open spec fn total_duration(zones: Seq<ZoneStats>) -> int
    decreases zones.len(),
{
    if zones.len() == 0 {
        0
    } else {
        total_duration(zones.drop_last()) + zones.last().duration
    }
}

/// Total time over the hideouts of a sequence of zones.
pub open spec fn hideout_duration(zones: Seq<ZoneStats>) -> int
    decreases zones.len(),
{
    if zones.len() == 0 {
        0
    } else {
        hideout_duration(zones.drop_last()) + if zones.last().location_type
            == LocationType::Hideout {
            zones.last().duration as int
        } else {
            0
        }
    }
}

/// Total deaths over a sequence of zones.
pub open spec fn total_deaths(zones: Seq<ZoneStats>) -> int
    decreases zones.len(),
{
    if zones.len() == 0 {
        0
    } else {
        total_deaths(zones.drop_last()) + zones.last().deaths
    }
}

/// The totals of a sequence of zones fit the summary's counters.
pub open spec fn totals_fit(zones: Seq<ZoneStats>) -> bool {
    total_duration(zones) <= u64::MAX && total_deaths(zones) <= u32::MAX
}

/// Totals over a prefix never exceed the totals over the whole sequence, and
/// hideout time never exceeds total time.
pub proof fn lemma_totals_monotone(zones: Seq<ZoneStats>, i: int)
    requires
        0 <= i <= zones.len(),
    ensures
        total_duration(zones.subrange(0, i)) <= total_duration(zones),
        total_deaths(zones.subrange(0, i)) <= total_deaths(zones),
        0 <= hideout_duration(zones.subrange(0, i)) <= total_duration(zones.subrange(0, i)),
        0 <= hideout_duration(zones) <= total_duration(zones),
    decreases zones.len(),
{
    if zones.len() == 0 {
        assert(zones.subrange(0, i) =~= zones);
    } else if i == zones.len() {
        assert(zones.subrange(0, i) =~= zones);
        lemma_totals_monotone(zones.drop_last(), i - 1);
    } else {
        lemma_totals_monotone(zones.drop_last(), i);
        assert(zones.drop_last().subrange(0, i) =~= zones.subrange(0, i));
    }
}

/// The totals over `zones[0..i+1]` extend those over `zones[0..i]` by zone `i`.
pub proof fn lemma_totals_step(zones: Seq<ZoneStats>, i: int)
    requires
        0 <= i < zones.len(),
    ensures
        total_duration(zones.subrange(0, i + 1)) == total_duration(zones.subrange(0, i))
            + zones[i].duration,
        total_deaths(zones.subrange(0, i + 1)) == total_deaths(zones.subrange(0, i))
            + zones[i].deaths,
        hideout_duration(zones.subrange(0, i + 1)) == hideout_duration(zones.subrange(0, i))
            + if zones[i].location_type == LocationType::Hideout {
            zones[i].duration as int
        } else {
            0
        },
{
    assert(zones.subrange(0, i + 1).drop_last() =~= zones.subrange(0, i));
}

/// Summary statistics of a character's tracking data.
#[derive(Debug, Clone)]
pub struct TrackingSummary {
    /// Character the summary belongs to.
    pub character_id: String,
    /// Total play time across all zones, in seconds.
    pub total_play_time: u64,
    /// Total time spent in hideouts, in seconds.
    pub total_hideout_time: u64,
    /// Number of zones visited.
    pub total_zones_visited: usize,
    /// Number of deaths across all zones.
    pub total_deaths: u32,
}

/// The summary of a character's zones.
pub open spec fn summary_matches(summary: TrackingSummary, character_id: Seq<char>, zones: Seq<
    ZoneStats,
>) -> bool {
    &&& summary.character_id@ == character_id
    &&& summary.total_play_time == total_duration(zones)
    &&& summary.total_hideout_time == hideout_duration(zones)
    &&& summary.total_zones_visited == zones.len()
    &&& summary.total_deaths == total_deaths(zones)
}

impl TrackingSummary {
    /// An empty summary for a character.
    pub fn new(character_id: String) -> (res: TrackingSummary)
        ensures
            res.character_id == character_id,
            summary_matches(res, character_id@, Seq::empty()),
    {
        TrackingSummary {
            character_id,
            total_play_time: 0,
            total_hideout_time: 0,
            total_zones_visited: 0,
            total_deaths: 0,
        }
    }

    /// The summary of a character's zones: total time, hideout time, number of
    /// zones and total deaths.
    pub fn from_zones(character_id: &str, zones: &[ZoneStats]) -> (res: TrackingSummary)
        requires
            totals_fit(zones@),
        ensures
            summary_matches(res, character_id@, zones@),
    {
        let n = zones.len();
        let mut play: u64 = 0;
        let mut hideout: u64 = 0;
        let mut deaths: u32 = 0;
        let mut i: usize = 0;
        while i < n
            invariant
                n == zones@.len(),
                i <= n,
                totals_fit(zones@),
                play == total_duration(zones@.subrange(0, i as int)),
                hideout == hideout_duration(zones@.subrange(0, i as int)),
                deaths == total_deaths(zones@.subrange(0, i as int)),
            decreases n - i,
        {
            proof {
                lemma_totals_step(zones@, i as int);
                lemma_totals_monotone(zones@, i + 1);
            }
            let z = &zones[i];
            play = play + z.duration;
            if z.location_type == LocationType::Hideout {
                hideout = hideout + z.duration;
            }
            deaths = deaths + z.deaths;
            i = i + 1;
        }
        proof {
            assert(zones@.subrange(0, n as int) =~= zones@);
        }
        TrackingSummary {
            character_id: String::from_str(character_id),
            total_play_time: play,
            total_hideout_time: hideout,
            total_zones_visited: n,
            total_deaths: deaths,
        }
    }
}

/// A copy of an optional text.
fn copy_text(t: &Option<String>) -> (res: Option<String>)
    ensures
        res == *t,
{
    match t {
        Some(s) => Some(s.clone()),
        None => None,
    }
}

impl Clone for ZoneStats {
    fn clone(&self) -> (res: ZoneStats)
        ensures
            res == *self,
    {
        ZoneStats {
            location_id: self.location_id.clone(),
            location_name: self.location_name.clone(),
            location_type: self.location_type,
            act: copy_text(&self.act),
            is_town: self.is_town,
            duration: self.duration,
            deaths: self.deaths,
            visits: self.visits,
            first_visited: self.first_visited,
            last_visited: self.last_visited,
            is_active: self.is_active,
            entry_timestamp: self.entry_timestamp,
            zone_level: self.zone_level,
        }
    }
}

/// Zone `i` is the first zone whose location id is `id`.
pub open spec fn is_first_with_id(zones: Seq<ZoneStats>, id: Seq<char>, i: int) -> bool {
    &&& 0 <= i < zones.len()
    &&& zones[i].location_id@ == id
    &&& forall|j: int| 0 <= j < i ==> zones[j].location_id@ != id
}

/// No zone has location id `id`.
pub open spec fn has_no_id(zones: Seq<ZoneStats>, id: Seq<char>) -> bool {
    forall|j: int| 0 <= j < zones.len() ==> zones[j].location_id@ != id
}

/// Zone `i` is the first active zone.
pub open spec fn is_first_active(zones: Seq<ZoneStats>, i: int) -> bool {
    &&& 0 <= i < zones.len()
    &&& zones[i].is_active
    &&& forall|j: int| 0 <= j < i ==> !zones[j].is_active
}

/// No two zones share a location id.
pub open spec fn unique_ids(zones: Seq<ZoneStats>) -> bool {
    forall|i: int, j: int|
        0 <= i < zones.len() && 0 <= j < zones.len() && i != j ==> zones[i].location_id@
            != zones[j].location_id@
}

/// At most one zone is active.
pub open spec fn at_most_one_active(zones: Seq<ZoneStats>) -> bool {
    forall|i: int, j: int|
        0 <= i < zones.len() && 0 <= j < zones.len() && zones[i].is_active && zones[j].is_active
            ==> i == j
}

/// The zones after adding or updating `zone`: the first zone with its
/// location id is replaced by it, or it is appended when there is none.
pub open spec fn upserted(zones: Seq<ZoneStats>, zone: ZoneStats) -> Seq<ZoneStats> {
    if exists|i: int| is_first_with_id(zones, zone.location_id@, i) {
        zones.update(choose|i: int| is_first_with_id(zones, zone.location_id@, i), zone)
    } else {
        zones.push(zone)
    }
}

/// The first zone with a given id is unique.
pub proof fn lemma_first_with_id_unique(zones: Seq<ZoneStats>, id: Seq<char>, i: int, k: int)
    requires
        is_first_with_id(zones, id, i),
        is_first_with_id(zones, id, k),
    ensures
        i == k,
{
}

/// After an upsert, the first zone with the upserted zone's id is that zone,
/// and the length grows by one exactly when the id was new.
pub proof fn lemma_upserted_finds_zone(zones: Seq<ZoneStats>, zone: ZoneStats)
    ensures
        exists|i: int|
            is_first_with_id(upserted(zones, zone), zone.location_id@, i) && upserted(
                zones,
                zone,
            )[i] == zone,
        has_no_id(zones, zone.location_id@) ==> upserted(zones, zone).len() == zones.len() + 1,
        !has_no_id(zones, zone.location_id@) ==> upserted(zones, zone).len() == zones.len(),
{
    let id = zone.location_id@;
    if exists|i: int| is_first_with_id(zones, id, i) {
        let i = choose|i: int| is_first_with_id(zones, id, i);
        assert(is_first_with_id(upserted(zones, zone), id, i));
    } else {
        if !has_no_id(zones, id) {
            let j = choose|j: int| 0 <= j < zones.len() && zones[j].location_id@ == id;
            lemma_first_exists(zones, id, j);
        }
        assert(is_first_with_id(upserted(zones, zone), id, zones.len() as int));
    }
}

/// When some zone has id `id`, a first such zone exists.
pub proof fn lemma_first_exists(zones: Seq<ZoneStats>, id: Seq<char>, j: int)
    requires
        0 <= j < zones.len(),
        zones[j].location_id@ == id,
    ensures
        exists|i: int| is_first_with_id(zones, id, i),
    decreases j,
{
    if exists|k: int| 0 <= k < j && zones[k].location_id@ == id {
        let k = choose|k: int| 0 <= k < j && zones[k].location_id@ == id;
        lemma_first_exists(zones, id, k);
    } else {
        assert(is_first_with_id(zones, id, j));
    }
}

/// An upsert keeps location ids unique.
pub proof fn lemma_upserted_keeps_unique_ids(zones: Seq<ZoneStats>, zone: ZoneStats)
    requires
        unique_ids(zones),
    ensures
        unique_ids(upserted(zones, zone)),
{
    let id = zone.location_id@;
    if !(exists|i: int| is_first_with_id(zones, id, i)) {
        if !has_no_id(zones, id) {
            let j = choose|j: int| 0 <= j < zones.len() && zones[j].location_id@ == id;
            lemma_first_exists(zones, id, j);
        }
    }
}


/// The contribution of one zone to the hideout total.
pub open spec fn hideout_part(z: ZoneStats) -> int {
    if z.location_type == LocationType::Hideout {
        z.duration as int
    } else {
        0
    }
}

/// Replacing zone `i` changes each total by the difference between the new
/// zone and the old one.
pub proof fn lemma_totals_update(zones: Seq<ZoneStats>, i: int, z: ZoneStats)
    requires
        0 <= i < zones.len(),
    ensures
        total_duration(zones.update(i, z)) == total_duration(zones) - zones[i].duration
            + z.duration,
        total_deaths(zones.update(i, z)) == total_deaths(zones) - zones[i].deaths + z.deaths,
        hideout_duration(zones.update(i, z)) == hideout_duration(zones) - hideout_part(zones[i])
            + hideout_part(z),
    decreases zones.len(),
{
    let u = zones.update(i, z);
    if i == zones.len() - 1 {
        assert(u.drop_last() =~= zones.drop_last());
    } else {
        lemma_totals_update(zones.drop_last(), i, z);
        assert(u.drop_last() =~= zones.drop_last().update(i, z));
    }
}

/// Appending a zone adds it to each total.
pub proof fn lemma_totals_push(zones: Seq<ZoneStats>, z: ZoneStats)
    ensures
        total_duration(zones.push(z)) == total_duration(zones) + z.duration,
        total_deaths(zones.push(z)) == total_deaths(zones) + z.deaths,
        hideout_duration(zones.push(z)) == hideout_duration(zones) + hideout_part(z),
{
    assert(zones.push(z).drop_last() =~= zones);
}

/// A single zone never counts more than the totals.
pub proof fn lemma_zone_within_totals(zones: Seq<ZoneStats>, i: int)
    requires
        0 <= i < zones.len(),
    ensures
        zones[i].duration <= total_duration(zones),
        zones[i].deaths <= total_deaths(zones),
    decreases zones.len(),
{
    lemma_totals_monotone(zones.drop_last(), 0);
    if i < zones.len() - 1 {
        lemma_zone_within_totals(zones.drop_last(), i);
    }
    lemma_totals_monotone(zones, zones.len() as int);
}

/// The totals of an upsert depend only on the time, deaths and type of the
/// upserted zone.
pub proof fn lemma_upserted_totals(zones: Seq<ZoneStats>, zone: ZoneStats)
    ensures
        forall|i: int| is_first_with_id(zones, zone.location_id@, i) ==> {
            &&& total_duration(upserted(zones, zone)) == total_duration(zones)
                - zones[i].duration + zone.duration
            &&& total_deaths(upserted(zones, zone)) == total_deaths(zones) - zones[i].deaths
                + zone.deaths
        },
        (forall|i: int| !is_first_with_id(zones, zone.location_id@, i)) ==> {
            &&& total_duration(upserted(zones, zone)) == total_duration(zones) + zone.duration
            &&& total_deaths(upserted(zones, zone)) == total_deaths(zones) + zone.deaths
        },
{
    let id = zone.location_id@;
    if exists|i: int| is_first_with_id(zones, id, i) {
        let i = choose|i: int| is_first_with_id(zones, id, i);
        lemma_totals_update(zones, i, zone);
        assert forall|k: int| is_first_with_id(zones, id, k) implies k == i by {
            lemma_first_with_id_unique(zones, id, i, k);
        }
    } else {
        lemma_totals_push(zones, zone);
    }
}


/// An upsert leaves the first zone of any other id where it was.
pub proof fn lemma_upserted_other_id(zones: Seq<ZoneStats>, zone: ZoneStats, id: Seq<char>, k: int)
    requires
        id != zone.location_id@,
    ensures
        is_first_with_id(zones, id, k) <==> is_first_with_id(upserted(zones, zone), id, k),
        is_first_with_id(zones, id, k) ==> upserted(zones, zone)[k] == zones[k],
        has_no_id(zones, id) <==> has_no_id(upserted(zones, zone), id),
{
    let u = upserted(zones, zone);
    if exists|i: int| is_first_with_id(zones, zone.location_id@, i) {
        let c = choose|i: int| is_first_with_id(zones, zone.location_id@, i);
        assert(u == zones.update(c, zone));
        assert forall|j: int| 0 <= j < zones.len() implies (zones[j].location_id@ == id
            <==> u[j].location_id@ == id) by {
            if j == c {
            }
        }
    } else {
        assert(u == zones.push(zone));
        assert forall|j: int| 0 <= j < zones.len() implies (zones[j].location_id@ == id
            <==> u[j].location_id@ == id) by {
        }
        assert(u[zones.len() as int].location_id@ != id);
    }
}

/// With unique ids, the first zone with an id is the only one with it.
pub proof fn lemma_unique_first(zones: Seq<ZoneStats>, i: int)
    requires
        unique_ids(zones),
        0 <= i < zones.len(),
    ensures
        is_first_with_id(zones, zones[i].location_id@, i),
{
}


/// `perm` lists each position `0..n` exactly once.
pub open spec fn is_permutation(perm: Seq<int>, n: int) -> bool {
    &&& perm.len() == n
    &&& forall|k: int| 0 <= k < n ==> 0 <= #[trigger] perm[k] < n
    &&& forall|k: int, l: int| 0 <= k < n && 0 <= l < n && k != l ==> perm[k] != perm[l]
}

/// `sorted` holds the zones in the order `perm`, by time spent, longest first,
/// zones of equal time in the order they are kept.
pub open spec fn is_sorted_by_time(zones: Seq<ZoneStats>, sorted: Seq<&ZoneStats>, perm: Seq<
    int,
>) -> bool {
    &&& is_permutation(perm, zones.len() as int)
    &&& sorted.len() == zones.len()
    &&& forall|k: int| 0 <= k < sorted.len() ==> *sorted[k] == zones[perm[k]]
    &&& forall|k: int, l: int|
        0 <= k < l < sorted.len() ==> sorted[k].duration >= sorted[l].duration
    &&& forall|k: int, l: int|
        0 <= k < l < sorted.len() && sorted[k].duration == sorted[l].duration ==> perm[k]
            < perm[l]
}


/// Two zone records agree in identity and in every counter and timer.
pub open spec fn same_counts(a: ZoneStats, b: ZoneStats) -> bool {
    &&& same_identity(a, b)
    &&& a.duration == b.duration
    &&& a.deaths == b.deaths
    &&& a.visits == b.visits
    &&& a.entry_timestamp == b.entry_timestamp
}

/// `z` is the zone `id` as entered from the zones `zones`: the first zone
/// with that id, active and with one more visit, its identity, time, deaths
/// and timer kept; or, without such a zone, a new active zone made from the
/// given fields, visited once, with no time or deaths and its timer running.
pub open spec fn entered_as(
    zones: Seq<ZoneStats>,
    z: ZoneStats,
    id: Seq<char>,
    name: String,
    location_type: LocationType,
    act: Option<String>,
    is_town: bool,
) -> bool {
    &&& z.is_active
    &&& if exists|k: int| is_first_with_id(zones, id, k) {
        let k = choose|k: int| is_first_with_id(zones, id, k);
        &&& z.visits == zones[k].visits + 1
        &&& same_identity(z, zones[k])
        &&& z.duration == zones[k].duration
        &&& z.deaths == zones[k].deaths
        &&& z.entry_timestamp == zones[k].entry_timestamp
    } else {
        &&& z.visits == 1
        &&& z.location_id@ == id
        &&& z.location_name == name
        &&& z.location_type == location_type
        &&& z.act == act
        &&& z.is_town == is_town
        &&& z.duration == 0
        &&& z.deaths == 0
        &&& z.entry_timestamp is Some
    }
}

/// What entering the zone `id` needs so that no counter overflows: the totals
/// fit before and after the active zone is stored back, and the zone to be
/// entered can count one more visit.
pub open spec fn can_enter_zone(zones: Seq<ZoneStats>, id: Seq<char>) -> bool {
    &&& totals_fit(zones)
    &&& forall|i: int| is_first_active(zones, i) ==> totals_fit(upserted(zones, zones[i]))
    &&& forall|i: int| is_first_with_id(zones, id, i) ==> zones[i].visits < u32::MAX
    &&& forall|i: int|
        is_first_active(zones, i) && zones[i].location_id@ == id ==> zones[i].visits < u32::MAX
}

/// Tracking data of one character: its location, its zones and their summary.
#[derive(Debug)]
pub struct CharacterTrackingData {
    /// Character this data belongs to.
    pub character_id: String,
    /// Current location.
    pub current_location: Option<LocationState>,
    /// Summary statistics over the zones.
    pub summary: TrackingSummary,
    /// Statistics per zone.
    pub zones: Vec<ZoneStats>,
    /// When the data was last updated.
    pub last_updated: Timestamp,
}

/// Inserting zone `i` at position `p`, after every zone with at least its
/// time and before the first with less, keeps the listed zones ordered by
/// time, longest first, equal times in the order they are kept.
proof fn lemma_insert_by_time(
    zones: Seq<ZoneStats>,
    old_res: Seq<&ZoneStats>,
    old_perm: Seq<int>,
    i: int,
    p: int,
    z: &ZoneStats,
)
    requires
        0 <= p <= i < zones.len(),
        *z == zones[i],
        old_res.len() == i,
        old_perm.len() == i,
        forall|k: int| 0 <= k < i ==> 0 <= #[trigger] old_perm[k] < i,
        forall|k: int, l: int| 0 <= k < i && 0 <= l < i && k != l ==> old_perm[k] != old_perm[l],
        forall|k: int| 0 <= k < i ==> *old_res[k] == zones[old_perm[k]],
        forall|k: int, l: int| 0 <= k < l < i ==> old_res[k].duration >= old_res[l].duration,
        forall|k: int, l: int|
            0 <= k < l < i && old_res[k].duration == old_res[l].duration ==> old_perm[k] < old_perm[l],
        forall|k: int| 0 <= k < p ==> old_res[k].duration >= z.duration,
        p < i ==> old_res[p].duration < z.duration,
    ensures
        ({
            let res = old_res.insert(p, z);
            let perm = old_perm.insert(p, i);
        &&& res.len() == i + 1
        &&& perm.len() == i + 1
        &&& forall|k: int| 0 <= k < i + 1 ==> 0 <= #[trigger] perm[k] < i + 1
        &&& forall|k: int, l: int|
            0 <= k < i + 1 && 0 <= l < i + 1 && k != l ==> perm[k] != perm[l]
        &&& forall|k: int| 0 <= k < i + 1 ==> *res[k] == zones[perm[k]]
        &&& forall|k: int, l: int| 0 <= k < l < i + 1 ==> res[k].duration >= res[l].duration
        &&& forall|k: int, l: int|
            0 <= k < l < i + 1 && res[k].duration == res[l].duration ==> perm[k] < perm[l]
    }),
{
    let res = old_res.insert(p, z);
    let perm = old_perm.insert(p, i);
    old_perm.insert_ensures(p, i);
    old_res.insert_ensures(p, z);
    assert forall|k: int, l: int| 0 <= k < l < i + 1 implies res[k].duration
        >= res[l].duration by {
        if l < p {
        } else if l == p {
            assert(res[k] == old_res[k]);
        } else if k < p {
            assert(res[l] == old_res[l - 1]);
            assert(res[k] == old_res[k]);
            if p < i {
                assert(old_res[p].duration < z.duration);
                if l - 1 > p {
                    assert(old_res[p].duration >= old_res[l - 1].duration);
                }
            }
        } else if k == p {
            assert(res[l] == old_res[l - 1]);
            assert(old_res[p].duration < z.duration);
            if l - 1 > p {
                assert(old_res[p].duration >= old_res[l - 1].duration);
            }
        } else {
            assert(res[l] == old_res[l - 1]);
            assert(res[k] == old_res[k - 1]);
        }
    }
    assert forall|k: int, l: int|
        0 <= k < l < i + 1 && res[k].duration == res[l].duration implies perm[k]
        < perm[l] by {
        if l < p {
        } else if l == p {
            assert(perm[l] == i);
            assert(perm[k] == old_perm[k]);
        } else if k < p {
            assert(perm[l] == old_perm[l - 1]);
            assert(res[l] == old_res[l - 1]);
        } else if k == p {
            assert(res[l] == old_res[l - 1]);
            assert(old_res[p].duration < z.duration);
            if l - 1 > p {
                assert(old_res[p].duration >= old_res[l - 1].duration);
            }
        } else {
            assert(perm[l] == old_perm[l - 1]);
            assert(perm[k] == old_perm[k - 1]);
            assert(res[l] == old_res[l - 1]);
            assert(res[k] == old_res[k - 1]);
        }
    }
    assert forall|k: int| 0 <= k < i + 1 implies *res[k] == zones[perm[k]] by {
        if k < p {
        } else if k == p {
        } else {
            assert(res[k] == old_res[k - 1]);
            assert(perm[k] == old_perm[k - 1]);
        }
    }
    assert forall|k: int, l: int| 0 <= k < i + 1 && 0 <= l < i + 1 && k != l implies perm[k]
        != perm[l] by {
        if k < p && l < p {
        } else if k == p {
            if l < p {
            } else {
                assert(perm[l] == old_perm[l - 1]);
            }
        } else if l == p {
            if k < p {
            } else {
                assert(perm[k] == old_perm[k - 1]);
            }
        } else if k < p {
            assert(perm[l] == old_perm[l - 1]);
        } else if l < p {
            assert(perm[k] == old_perm[k - 1]);
        } else {
            assert(perm[l] == old_perm[l - 1]);
            assert(perm[k] == old_perm[k - 1]);
        }
    }
    assert forall|k: int| 0 <= k < i + 1 implies 0 <= #[trigger] perm[k] < i + 1 by {
        if k < p {
        } else if k == p {
        } else {
            assert(perm[k] == old_perm[k - 1]);
        }
    }
}

impl CharacterTrackingData {
    /// The summary agrees with the zones.
    pub open spec fn well_formed(&self) -> bool {
        summary_matches(self.summary, self.character_id@, self.zones@)
    }

    /// Empty tracking data for a character, stamped now.
    pub fn new(character_id: String) -> (res: CharacterTrackingData)
        ensures
            res.character_id == character_id,
            res.current_location is None,
            res.zones@ == Seq::<ZoneStats>::empty(),
            res.well_formed(),
    {
        let id_copy = character_id.clone();
        CharacterTrackingData {
            character_id,
            current_location: None,
            summary: TrackingSummary::new(id_copy),
            zones: Vec::new(),
            last_updated: now(),
        }
    }

    /// Stamps the data now.
    pub fn touch(&mut self)
        ensures
            final(self).character_id == old(self).character_id,
            final(self).current_location == old(self).current_location,
            final(self).summary == old(self).summary,
            final(self).zones == old(self).zones,
    {
        self.last_updated = now();
    }

    /// Recomputes the summary from the zones and stamps the data now.
    pub fn update_summary(&mut self)
        requires
            totals_fit(old(self).zones@),
        ensures
            final(self).well_formed(),
            final(self).character_id == old(self).character_id,
            final(self).current_location == old(self).current_location,
            final(self).zones == old(self).zones,
    {
        self.summary = TrackingSummary::from_zones(self.character_id.as_str(), self.zones.as_slice());
        self.touch();
    }

    /// Position of the first zone with location id `location_id`.
    fn zone_position(&self, location_id: &str) -> (res: Option<usize>)
        ensures
            match res {
                Some(i) => is_first_with_id(self.zones@, location_id@, i as int),
                None => has_no_id(self.zones@, location_id@),
            },
    {
        let n = self.zones.len();
        let mut i: usize = 0;
        while i < n
            invariant
                n == self.zones@.len(),
                i <= n,
                forall|j: int| 0 <= j < i ==> self.zones@[j].location_id@ != location_id@,
            decreases n - i,
        {
            if crate::text::str_equals(self.zones[i].location_id.as_str(), location_id) {
                return Some(i);
            }
            i = i + 1;
        }
        None
    }

    /// Position of the first active zone.
    fn active_position(&self) -> (res: Option<usize>)
        ensures
            match res {
                Some(i) => is_first_active(self.zones@, i as int),
                None => forall|j: int| 0 <= j < self.zones@.len() ==> !self.zones@[j].is_active,
            },
    {
        let n = self.zones.len();
        let mut i: usize = 0;
        while i < n
            invariant
                n == self.zones@.len(),
                i <= n,
                forall|j: int| 0 <= j < i ==> !self.zones@[j].is_active,
            decreases n - i,
        {
            if self.zones[i].is_active {
                return Some(i);
            }
            i = i + 1;
        }
        None
    }

    /// The first zone with location id `location_id`, if any.
    pub fn find_zone(&self, location_id: &str) -> (res: Option<&ZoneStats>)
        ensures
            match res {
                Some(z) => exists|i: int|
                    is_first_with_id(self.zones@, location_id@, i) && self.zones@[i] == *z,
                None => has_no_id(self.zones@, location_id@),
            },
    {
        match self.zone_position(location_id) {
            Some(i) => Some(&self.zones[i]),
            None => None,
        }
    }

    /// The active zone (the first one, should several be active).
    pub fn get_active_zone(&self) -> (res: Option<&ZoneStats>)
        ensures
            match res {
                Some(z) => exists|i: int| is_first_active(self.zones@, i) && self.zones@[i] == *z,
                None => forall|j: int| 0 <= j < self.zones@.len() ==> !self.zones@[j].is_active,
            },
    {
        match self.active_position() {
            Some(i) => Some(&self.zones[i]),
            None => None,
        }
    }

    /// Adds a zone, or replaces the first zone with the same location id, then
    /// recomputes the summary and stamps the data now.
    pub fn upsert_zone(&mut self, zone: ZoneStats)
        requires
            totals_fit(upserted(old(self).zones@, zone)),
        ensures
            final(self).zones@ == upserted(old(self).zones@, zone),
            final(self).well_formed(),
            final(self).character_id == old(self).character_id,
            final(self).current_location == old(self).current_location,
    {
        let ghost id = zone.location_id@;
        match self.zone_position(zone.location_id.as_str()) {
            Some(i) => {
                proof {
                    let k = choose|k: int| is_first_with_id(old(self).zones@, id, k);
                    lemma_first_with_id_unique(old(self).zones@, id, i as int, k);
                }
                self.zones.set(i, zone);
            },
            None => {
                proof {
                    if exists|k: int| is_first_with_id(old(self).zones@, id, k) {
                        let k = choose|k: int| is_first_with_id(old(self).zones@, id, k);
                        assert(old(self).zones@[k].location_id@ == id);
                    }
                }
                self.zones.push(zone);
            },
        }
        self.update_summary();
    }

    /// The zones ordered by time spent, longest first; zones with equal time
    /// keep their order.
    pub fn get_zones_by_time(&self) -> (res: Vec<&ZoneStats>)
        ensures
            exists|perm: Seq<int>| is_sorted_by_time(self.zones@, res@, perm),
    {
        let n = self.zones.len();
        let mut res: Vec<&ZoneStats> = Vec::new();
        let ghost mut perm: Seq<int> = Seq::empty();
        let mut i: usize = 0;
        while i < n
            invariant
                n == self.zones@.len(),
                i <= n,
                res@.len() == i,
                perm.len() == i,
                forall|k: int| 0 <= k < i ==> 0 <= #[trigger] perm[k] < i,
                forall|k: int, l: int| 0 <= k < i && 0 <= l < i && k != l ==> perm[k] != perm[l],
                forall|k: int| 0 <= k < i ==> *res@[k] == self.zones@[perm[k]],
                forall|k: int, l: int| 0 <= k < l < i ==> res@[k].duration >= res@[l].duration,
                forall|k: int, l: int|
                    0 <= k < l < i && res@[k].duration == res@[l].duration ==> perm[k] < perm[l],
            decreases n - i,
        {
            let z = &self.zones[i];
            let mut p: usize = 0;
            while p < i && res[p].duration >= z.duration
                invariant
                    p <= i,
                    res@.len() == i,
                    forall|k: int| 0 <= k < p ==> res@[k].duration >= z.duration,
                decreases i - p,
            {
                p = p + 1;
            }
            let ghost old_res = res@;
            let ghost old_perm = perm;
            proof {
                lemma_insert_by_time(self.zones@, old_res, old_perm, i as int, p as int, z);
            }
            res.insert(p, z);
            proof {
                perm = old_perm.insert(p as int, i as int);
            }
            i = i + 1;
        }
        proof {
            assert(is_sorted_by_time(self.zones@, res@, perm));
        }
        res
    }

    /// The character leaves a zone: the first zone with `location_id` is
    /// deactivated and the summary recomputed. Without such a zone nothing
    /// changes.
    pub fn leave_zone(&mut self, location_id: &str)
        requires
            totals_fit(old(self).zones@),
        ensures
            match old(self).zone_position_spec(location_id@) {
                Some(i) => {
                    &&& final(self).zones@.len() == old(self).zones@.len()
                    &&& !final(self).zones@[i].is_active
                    &&& same_identity(final(self).zones@[i], old(self).zones@[i])
                    &&& final(self).zones@[i].duration == old(self).zones@[i].duration
                    &&& final(self).zones@[i].deaths == old(self).zones@[i].deaths
                    &&& final(self).zones@[i].visits == old(self).zones@[i].visits
                    &&& forall|j: int|
                        0 <= j < old(self).zones@.len() && j != i ==> final(self).zones@[j]
                            == old(self).zones@[j]
                    &&& final(self).well_formed()
                },
                None => *final(self) == *old(self),
            },
            final(self).character_id == old(self).character_id,
            final(self).current_location == old(self).current_location,
    {
        match self.zone_position(location_id) {
            Some(i) => {
                let mut z = self.zones[i].clone();
                z.deactivate();
                proof {
                    lemma_totals_update(self.zones@, i as int, z);
                }
                self.zones.set(i, z);
                self.update_summary();
            },
            None => {},
        }
    }

    /// The position of the first zone with a given id, if any.
    pub open spec fn zone_position_spec(&self, id: Seq<char>) -> Option<int> {
        if exists|i: int| is_first_with_id(self.zones@, id, i) {
            Some(choose|i: int| is_first_with_id(self.zones@, id, i))
        } else {
            None
        }
    }

    /// Records a death in the first zone with `location_id` and recomputes the
    /// summary. Without such a zone nothing changes.
    pub fn record_death_in_zone(&mut self, location_id: &str)
        requires
            totals_fit(old(self).zones@),
            old(self).zone_position_spec(location_id@) is Some ==> total_deaths(
                old(self).zones@,
            ) < u32::MAX,
        ensures
            match old(self).zone_position_spec(location_id@) {
                Some(i) => {
                    &&& final(self).zones@.len() == old(self).zones@.len()
                    &&& final(self).zones@[i].deaths == old(self).zones@[i].deaths + 1
                    &&& same_identity(final(self).zones@[i], old(self).zones@[i])
                    &&& final(self).zones@[i].duration == old(self).zones@[i].duration
                    &&& final(self).zones@[i].visits == old(self).zones@[i].visits
                    &&& final(self).zones@[i].is_active == old(self).zones@[i].is_active
                    &&& forall|j: int|
                        0 <= j < old(self).zones@.len() && j != i ==> final(self).zones@[j]
                            == old(self).zones@[j]
                    &&& final(self).well_formed()
                    &&& old(self).well_formed() ==> final(self).summary.total_deaths
                        == old(self).summary.total_deaths + 1
                },
                None => *final(self) == *old(self),
            },
            final(self).character_id == old(self).character_id,
            final(self).current_location == old(self).current_location,
    {
        match self.zone_position(location_id) {
            Some(i) => {
                proof {
                    lemma_zone_within_totals(self.zones@, i as int);
                    lemma_first_with_id_unique(self.zones@, location_id@, i as int,
                        self.zone_position_spec(location_id@)->0);
                }
                let mut z = self.zones[i].clone();
                z.record_death();
                proof {
                    lemma_totals_update(self.zones@, i as int, z);
                }
                self.zones.set(i, z);
                self.update_summary();
            },
            None => {
                proof {
                    if exists|k: int| is_first_with_id(self.zones@, location_id@, k) {
                        let k = choose|k: int| is_first_with_id(self.zones@, location_id@, k);
                        assert(self.zones@[k].location_id@ == location_id@);
                    }
                }
            },
        }
    }

    /// Adds time to the first zone with `location_id` and recomputes the
    /// summary. Without such a zone nothing changes.
    pub fn add_time_to_zone(&mut self, location_id: &str, seconds: u64)
        requires
            totals_fit(old(self).zones@),
            old(self).zone_position_spec(location_id@) is Some ==> total_duration(
                old(self).zones@,
            ) + seconds <= u64::MAX,
        ensures
            match old(self).zone_position_spec(location_id@) {
                Some(i) => {
                    &&& final(self).zones@.len() == old(self).zones@.len()
                    &&& final(self).zones@[i].duration == old(self).zones@[i].duration + seconds
                    &&& same_identity(final(self).zones@[i], old(self).zones@[i])
                    &&& final(self).zones@[i].deaths == old(self).zones@[i].deaths
                    &&& final(self).zones@[i].visits == old(self).zones@[i].visits
                    &&& final(self).zones@[i].is_active == old(self).zones@[i].is_active
                    &&& forall|j: int|
                        0 <= j < old(self).zones@.len() && j != i ==> final(self).zones@[j]
                            == old(self).zones@[j]
                    &&& final(self).well_formed()
                },
                None => *final(self) == *old(self),
            },
            final(self).character_id == old(self).character_id,
            final(self).current_location == old(self).current_location,
    {
        match self.zone_position(location_id) {
            Some(i) => {
                proof {
                    lemma_zone_within_totals(self.zones@, i as int);
                    lemma_first_with_id_unique(self.zones@, location_id@, i as int,
                        self.zone_position_spec(location_id@)->0);
                }
                let mut z = self.zones[i].clone();
                z.add_time(seconds);
                proof {
                    lemma_totals_update(self.zones@, i as int, z);
                }
                self.zones.set(i, z);
                self.update_summary();
            },
            None => {
                proof {
                    if exists|k: int| is_first_with_id(self.zones@, location_id@, k) {
                        let k = choose|k: int| is_first_with_id(self.zones@, location_id@, k);
                        assert(self.zones@[k].location_id@ == location_id@);
                    }
                }
            },
        }
    }

    /// The character enters a zone: the active zone, if any, is deactivated
    /// and stored back; the zone with `location_id` (or a new one made from
    /// the other arguments) is activated, counted as visited and stored. The
    /// summary is recomputed and the totals of time and deaths are unchanged.
    /// When ids are unique and at most one zone was active, afterwards ids are
    /// still unique and the entered zone is the only active one.
    pub fn enter_zone(
        &mut self,
        location_id: String,
        location_name: String,
        location_type: LocationType,
        act: Option<String>,
        is_town: bool,
    )
        requires
            can_enter_zone(old(self).zones@, location_id@),
        ensures
            final(self).well_formed(),
            final(self).character_id == old(self).character_id,
            final(self).current_location == old(self).current_location,
            exists|i: int|
                is_first_with_id(final(self).zones@, location_id@, i)
                    && final(self).zones@[i].is_active,
            unique_ids(old(self).zones@) ==> total_duration(final(self).zones@) == total_duration(
                old(self).zones@,
            ) && total_deaths(final(self).zones@) == total_deaths(old(self).zones@),
            unique_ids(old(self).zones@) && at_most_one_active(old(self).zones@) ==> {
                &&& unique_ids(final(self).zones@)
                &&& forall|j: int|
                    0 <= j < final(self).zones@.len() ==> (final(self).zones@[j].is_active
                        <==> final(self).zones@[j].location_id@ == location_id@)
            },
            unique_ids(old(self).zones@) ==> exists|i: int|
                is_first_with_id(final(self).zones@, location_id@, i) && entered_as(
                    old(self).zones@,
                    #[trigger] final(self).zones@[i],
                    location_id@,
                    location_name,
                    location_type,
                    act,
                    is_town,
                ),
    {
        let ghost z0 = self.zones@;
        let ghost x = location_id@;
        let ghost name0 = location_name;
        let ghost type0 = location_type;
        let ghost act0 = act;
        let ghost town0 = is_town;
        match self.active_position() {
            Some(i) => {
                let mut z = self.zones[i].clone();
                z.deactivate();
                proof {
                    lemma_upserted_totals(z0, z);
                    lemma_upserted_totals(z0, z0[i as int]);
                }
                self.upsert_zone(z);
                proof {
                    if unique_ids(z0) {
                        lemma_unique_first(z0, i as int);
                        lemma_totals_update(z0, i as int, z);
                        assert(self.zones@ == z0.update(i as int, z));
                    }
                    if unique_ids(z0) && at_most_one_active(z0) {
                        lemma_unique_first(z0, i as int);
                        lemma_upserted_keeps_unique_ids(z0, z);
                        assert(self.zones@ == z0.update(i as int, z));
                    }
                    if unique_ids(z0) {
                        assert(self.zones@ == z0.update(i as int, z));
                        assert forall|j: int| 0 <= j < self.zones@.len() implies same_counts(
                            #[trigger] self.zones@[j],
                            z0[j],
                        ) by {}
                    }
                    if z.location_id@ != x {
                        assert forall|k: int| is_first_with_id(self.zones@, x, k) implies self.zones@[k].visits < u32::MAX by {
                            lemma_upserted_other_id(z0, z, x, k);
                        }
                    } else {
                        assert forall|k: int| is_first_with_id(self.zones@, x, k) implies self.zones@[k].visits < u32::MAX by {
                            lemma_upserted_finds_zone(z0, z);
                            let m = choose|m: int| is_first_with_id(upserted(z0, z), x, m) && upserted(z0, z)[m] == z;
                            lemma_first_with_id_unique(self.zones@, x, k, m);
                        }
                    }
                }
            },
            None => {},
        }
        let ghost z1 = self.zones@;
        proof {
            if unique_ids(z0) {
                assert(z1.len() == z0.len());
                assert(forall|j: int| 0 <= j < z1.len() ==> same_counts(#[trigger] z1[j], z0[j]));
            }
        }
        let pos = self.zone_position(location_id.as_str());
        let mut zone = match pos {
            Some(j) => self.zones[j].clone(),
            None => ZoneStats::new(location_id, location_name, location_type, act, is_town),
        };
        let ghost picked = zone;
        zone.activate();
        proof {
            lemma_upserted_totals(z1, zone);
            lemma_upserted_finds_zone(z1, zone);
            if unique_ids(z0) {
                lemma_entered_as(z0, z1, pos, picked, zone, x, name0, type0, act0, town0);
            }
        }
        self.upsert_zone(zone);
        proof {
            assert(total_duration(self.zones@) == total_duration(z1));
            assert(total_deaths(self.zones@) == total_deaths(z1));
            if unique_ids(z0) && at_most_one_active(z0) {
                lemma_upserted_keeps_unique_ids(z1, zone);
                assert forall|j: int| 0 <= j < self.zones@.len() implies (self.zones@[j].is_active
                    <==> self.zones@[j].location_id@ == x) by {
                    let m = choose|m: int| is_first_with_id(self.zones@, x, m) && self.zones@[m] == zone;
                    if j != m {
                        assert(self.zones@[j].location_id@ != x);
                        if exists|k: int| is_first_with_id(z1, x, k) {
                            let k = choose|k: int| is_first_with_id(z1, x, k);
                            assert(self.zones@ == z1.update(k, zone));
                        }
                        assert(j < z1.len());
                        assert(self.zones@[j] == z1[j]);
                        assert(!z1[j].is_active);
                    }
                }
            }
        }
    }
}

/// The zone picked for entering, once activated, is the zone as entered
/// from the zones before the active one was stored back, when storing it back
/// kept every zone's identity and counters.
proof fn lemma_entered_as(
    z0: Seq<ZoneStats>,
    z1: Seq<ZoneStats>,
    pos: Option<usize>,
    picked: ZoneStats,
    zone: ZoneStats,
    x: Seq<char>,
    name: String,
    location_type: LocationType,
    act: Option<String>,
    is_town: bool,
)
    requires
        z1.len() == z0.len(),
        forall|j: int| 0 <= j < z1.len() ==> same_counts(#[trigger] z1[j], z0[j]),
        match pos {
            Some(j) => is_first_with_id(z1, x, j as int) && picked == z1[j as int],
            None => {
                &&& has_no_id(z1, x)
                &&& picked.location_id@ == x
                &&& picked.location_name == name
                &&& picked.location_type == location_type
                &&& picked.act == act
                &&& picked.is_town == is_town
                &&& picked.duration == 0
                &&& picked.deaths == 0
                &&& picked.visits == 0
                &&& picked.entry_timestamp is Some
            },
        },
        zone.is_active,
        zone.visits == picked.visits + 1,
        same_identity(zone, picked),
        zone.duration == picked.duration,
        zone.deaths == picked.deaths,
        zone.entry_timestamp == picked.entry_timestamp,
    ensures
        entered_as(z0, zone, x, name, location_type, act, is_town),
{
    match pos {
        Some(j) => {
            assert forall|m: int| 0 <= m < j implies z0[m].location_id@ != x by {
                assert(same_counts(z1[m], z0[m]));
            }
            assert(same_counts(z1[j as int], z0[j as int]));
            assert(is_first_with_id(z0, x, j as int));
            let k = choose|k: int| is_first_with_id(z0, x, k);
            lemma_first_with_id_unique(z0, x, j as int, k);
        },
        None => {
            if exists|k: int| is_first_with_id(z0, x, k) {
                let k = choose|k: int| is_first_with_id(z0, x, k);
                assert(same_counts(z1[k], z0[k]));
                assert(false);
            }
        },
    }
}

/// The first active zone is unique.
proof fn lemma_first_active_unique(zones: Seq<ZoneStats>, i: int, k: int)
    requires
        is_first_active(zones, i),
        is_first_active(zones, k),
    ensures
        i == k,
{
}

/// The totals of a sequence of zones, computed without overflow.
fn zone_totals(zones: &Vec<ZoneStats>) -> (res: (u128, u128))
    ensures
        res.0 == total_duration(zones@),
        res.1 == total_deaths(zones@),
{
    let n = zones.len();
    let mut duration: u128 = 0;
    let mut deaths: u128 = 0;
    let mut i: usize = 0;
    while i < n
        invariant
            n == zones@.len(),
            i <= zones@.len(),
            duration == total_duration(zones@.subrange(0, i as int)),
            deaths == total_deaths(zones@.subrange(0, i as int)),
            duration <= i * 0xffff_ffff_ffff_ffffu128,
            deaths <= i * 0xffff_ffffu128,
            zones@.len() <= usize::MAX,
        decreases n - i,
    {
        proof {
            lemma_totals_step(zones@, i as int);
        }
        assert(duration + zones@[i as int].duration <= (i + 1) * 0xffff_ffff_ffff_ffffu128) by (nonlinear_arith)
            requires
                duration <= i * 0xffff_ffff_ffff_ffffu128,
                zones@[i as int].duration <= 0xffff_ffff_ffff_ffffu64,
        ;
        assert(deaths + zones@[i as int].deaths <= (i + 1) * 0xffff_ffffu128) by (nonlinear_arith)
            requires
                deaths <= i * 0xffff_ffffu128,
                zones@[i as int].deaths <= 0xffff_ffffu32,
        ;
        assert((i + 1) * 0xffff_ffff_ffff_ffffu128 <= u128::MAX) by (nonlinear_arith)
            requires
                i + 1 <= usize::MAX + 1,
                usize::MAX <= u64::MAX,
        ;
        duration = duration + zones[i].duration as u128;
        deaths = deaths + zones[i].deaths as u128;
        i = i + 1;
    }
    assert(zones@.subrange(0, zones@.len() as int) =~= zones@);
    (duration, deaths)
}

impl CharacterTrackingData {
    /// Whether entering the zone `location_id` keeps every counter in range
    /// (see `can_enter_zone`).
    pub fn can_enter(&self, location_id: &str) -> (res: bool)
        ensures
            res == can_enter_zone(self.zones@, location_id@),
    {
        let ghost zs = self.zones@;
        let (duration, deaths) = zone_totals(&self.zones);
        if duration > u64::MAX as u128 || deaths > u32::MAX as u128 {
            return false;
        }
        let n = self.zones.len();
        let mut a: usize = 0;
        while a < n && !self.zones[a].is_active
            invariant
                a <= n,
                n == zs.len(),
                zs == self.zones@,
                forall|j: int| 0 <= j < a ==> !zs[j].is_active,
            decreases n - a,
        {
            a = a + 1;
        }
        if a < n {
            assert(is_first_active(zs, a as int));
            let active = &self.zones[a];
            let mut j: usize = 0;
            while j < a && !crate::text::str_equals(self.zones[j].location_id.as_str(), active.location_id.as_str())
                invariant
                    j <= a,
                    a < n,
                    n == zs.len(),
                    zs == self.zones@,
                    *active == zs[a as int],
                    forall|k: int| 0 <= k < j ==> zs[k].location_id@ != active.location_id@,
                decreases a - j,
            {
                j = j + 1;
            }
            assert(is_first_with_id(zs, active.location_id@, j as int));
            proof {
                lemma_zone_within_totals(zs, j as int);
                lemma_upserted_totals(zs, *active);
                assert forall|i: int| is_first_active(zs, i) implies totals_fit(upserted(zs, zs[i]))
                    == totals_fit(upserted(zs, *active)) by {
                    lemma_first_active_unique(zs, i, a as int);
                }
            }
            let new_duration = duration - self.zones[j].duration as u128 + active.duration as u128;
            let new_deaths = deaths - self.zones[j].deaths as u128 + active.deaths as u128;
            if new_duration > u64::MAX as u128 || new_deaths > u32::MAX as u128 {
                return false;
            }
            if crate::text::str_equals(active.location_id.as_str(), location_id) && active.visits == u32::MAX {
                return false;
            }
        } else {
            assert forall|i: int| !is_first_active(zs, i) by {
            }
        }
        let mut k: usize = 0;
        while k < n && !crate::text::str_equals(self.zones[k].location_id.as_str(), location_id)
            invariant
                k <= n,
                n == zs.len(),
                zs == self.zones@,
                forall|m: int| 0 <= m < k ==> zs[m].location_id@ != location_id@,
            decreases n - k,
        {
            k = k + 1;
        }
        if k < n {
            assert(is_first_with_id(zs, location_id@, k as int));
            assert forall|i: int| is_first_with_id(zs, location_id@, i) implies i == k by {
                lemma_first_with_id_unique(zs, location_id@, i, k as int);
            }
            if self.zones[k].visits == u32::MAX {
                return false;
            }
        } else {
            assert forall|i: int| !is_first_with_id(zs, location_id@, i) by {
            }
        }
        proof {
            if a < n {
                assert forall|i: int| is_first_active(zs, i) implies i == a by {
                    lemma_first_active_unique(zs, i, a as int);
                }
            }
        }
        true
    }
}

} // verus!
