//! The play-time summary kept with each character: totals over the zones it
//! visited, split by kind of zone and by act.

use vstd::prelude::*;

verus! {

/// Totals over the zones a character visited.
#[derive(Debug, Clone)]
pub struct TrackingSummary {
    pub character_id: String,
    pub total_play_time: u64,
    pub total_hideout_time: u64,
    pub total_town_time: u64,
    pub total_zones_visited: u32,
    pub total_deaths: u32,
    pub play_time_act1: u64,
    pub play_time_act2: u64,
    pub play_time_act3: u64,
    pub play_time_act4: u64,
    pub play_time_act5: u64,
    pub play_time_interlude: u64,
    pub play_time_endgame: u64,
}

/// The summary of a character that has visited nothing.
pub open spec fn empty_summary(character_id: String) -> TrackingSummary {
    TrackingSummary {
        character_id,
        total_play_time: 0,
        total_hideout_time: 0,
        total_town_time: 0,
        total_zones_visited: 0,
        total_deaths: 0,
        play_time_act1: 0,
        play_time_act2: 0,
        play_time_act3: 0,
        play_time_act4: 0,
        play_time_act5: 0,
        play_time_interlude: 0,
        play_time_endgame: 0,
    }
}

impl TrackingSummary {
    /// The summary of a character that has visited nothing.
    pub fn new(character_id: String) -> (res: TrackingSummary)
        ensures
            res == empty_summary(character_id),
    {
        TrackingSummary {
            character_id,
            total_play_time: 0,
            total_hideout_time: 0,
            total_town_time: 0,
            total_zones_visited: 0,
            total_deaths: 0,
            play_time_act1: 0,
            play_time_act2: 0,
            play_time_act3: 0,
            play_time_act4: 0,
            play_time_act5: 0,
            play_time_interlude: 0,
            play_time_endgame: 0,
        }
    }
}

} // verus!
