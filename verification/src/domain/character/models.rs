//! Character profile models: classes, ascendencies, leagues and the
//! records kept for each character.

use vstd::prelude::*;
use crate::text::str_equals;
use crate::time::{Timestamp, now};
use crate::domain::zone_tracking::{TrackingSummary, empty_summary};
use crate::domain::walkthrough::models::WalkthroughProgress;

verus! {

/// A playable character class.
#[derive(Debug, Clone, Copy, PartialEq, Eq, Structural, Hash)]
pub enum CharacterClass {
    Warrior,
    Sorceress,
    Ranger,
    Huntress,
    Monk,
    Mercenary,
    Witch,
    Druid,
}

/// The display name of a `CharacterClass`.
pub open spec fn class_name(x: CharacterClass) -> Seq<char> {
    match x {
        CharacterClass::Warrior => "Warrior"@,
        CharacterClass::Sorceress => "Sorceress"@,
        CharacterClass::Ranger => "Ranger"@,
        CharacterClass::Huntress => "Huntress"@,
        CharacterClass::Monk => "Monk"@,
        CharacterClass::Mercenary => "Mercenary"@,
        CharacterClass::Witch => "Witch"@,
        CharacterClass::Druid => "Druid"@,
    }
}

/// The `CharacterClass` whose display name is `s`, if any.
pub open spec fn class_from_name(s: Seq<char>) -> Option<CharacterClass> {
    if s == "Warrior"@ {
        Some(CharacterClass::Warrior)
    } else if s == "Sorceress"@ {
        Some(CharacterClass::Sorceress)
    } else if s == "Ranger"@ {
        Some(CharacterClass::Ranger)
    } else if s == "Huntress"@ {
        Some(CharacterClass::Huntress)
    } else if s == "Monk"@ {
        Some(CharacterClass::Monk)
    } else if s == "Mercenary"@ {
        Some(CharacterClass::Mercenary)
    } else if s == "Witch"@ {
        Some(CharacterClass::Witch)
    } else if s == "Druid"@ {
        Some(CharacterClass::Druid)
    } else {
        None
    }
}

impl CharacterClass {
    /// The display name of this class.
    pub fn to_string(&self) -> (res: String)
        ensures
            res@ == class_name(*self),
    {
        match self {
            CharacterClass::Warrior => String::from_str("Warrior"),
            CharacterClass::Sorceress => String::from_str("Sorceress"),
            CharacterClass::Ranger => String::from_str("Ranger"),
            CharacterClass::Huntress => String::from_str("Huntress"),
            CharacterClass::Monk => String::from_str("Monk"),
            CharacterClass::Mercenary => String::from_str("Mercenary"),
            CharacterClass::Witch => String::from_str("Witch"),
            CharacterClass::Druid => String::from_str("Druid"),
        }
    }

    /// Parses a display name; any other text is refused with a message naming it.
    pub fn parse(s: &str) -> (res: Result<CharacterClass, String>)
        ensures
            class_from_name(s@) matches Some(x) ==> res == Ok::<CharacterClass, String>(x),
            class_from_name(s@) is None ==> (res matches Err(e) && e@ == "Unknown CharacterClass: '"@ + s@ + "'"@),
    {
        if str_equals(s, "Warrior") {
            return Ok(CharacterClass::Warrior);
        }
        if str_equals(s, "Sorceress") {
            return Ok(CharacterClass::Sorceress);
        }
        if str_equals(s, "Ranger") {
            return Ok(CharacterClass::Ranger);
        }
        if str_equals(s, "Huntress") {
            return Ok(CharacterClass::Huntress);
        }
        if str_equals(s, "Monk") {
            return Ok(CharacterClass::Monk);
        }
        if str_equals(s, "Mercenary") {
            return Ok(CharacterClass::Mercenary);
        }
        if str_equals(s, "Witch") {
            return Ok(CharacterClass::Witch);
        }
        if str_equals(s, "Druid") {
            return Ok(CharacterClass::Druid);
        }
        let msg = String::from_str("Unknown CharacterClass: '").concat(s).concat("'");
        Err(msg)
    }
}

impl core::str::FromStr for CharacterClass {
    type Err = String;

    fn from_str(s: &str) -> (res: Result<CharacterClass, String>)
        ensures
            class_from_name(s@) matches Some(x) ==> res == Ok::<CharacterClass, String>(x),
            class_from_name(s@) is None ==> (res matches Err(e) && e@ == "Unknown CharacterClass: '"@ + s@ + "'"@),
    {
        CharacterClass::parse(s)
    }
}

impl Default for CharacterClass {
    fn default() -> (res: CharacterClass)
        ensures
            res == CharacterClass::Warrior,
    {
        CharacterClass::Warrior
    }
}

/// An ascendency: the specialisation a class takes.
#[derive(Debug, Clone, Copy, PartialEq, Eq, Structural, Hash)]
pub enum Ascendency {
    Titan,
    Warbringer,
    SmithOfKatava,
    Stormweaver,
    Chronomancer,
    DiscipleOfVarashta,
    Deadeye,
    Pathfinder,
    Ritualist,
    Amazon,
    Invoker,
    AcolyteOfChayula,
    GemlingLegionnaire,
    Tactician,
    Witchhunter,
    BloodMage,
    Infernalist,
    Lich,
    Shaman,
    Oracle,
}

/// The display name of a `Ascendency`.
pub open spec fn ascendency_name(x: Ascendency) -> Seq<char> {
    match x {
        Ascendency::Titan => "Titan"@,
        Ascendency::Warbringer => "Warbringer"@,
        Ascendency::SmithOfKatava => "Smith of Katava"@,
        Ascendency::Stormweaver => "Stormweaver"@,
        Ascendency::Chronomancer => "Chronomancer"@,
        Ascendency::DiscipleOfVarashta => "Disciple of Varashta"@,
        Ascendency::Deadeye => "Deadeye"@,
        Ascendency::Pathfinder => "Pathfinder"@,
        Ascendency::Ritualist => "Ritualist"@,
        Ascendency::Amazon => "Amazon"@,
        Ascendency::Invoker => "Invoker"@,
        Ascendency::AcolyteOfChayula => "Acolyte of Chayula"@,
        Ascendency::GemlingLegionnaire => "Gemling Legionnaire"@,
        Ascendency::Tactician => "Tactician"@,
        Ascendency::Witchhunter => "Witchhunter"@,
        Ascendency::BloodMage => "Blood Mage"@,
        Ascendency::Infernalist => "Infernalist"@,
        Ascendency::Lich => "Lich"@,
        Ascendency::Shaman => "Shaman"@,
        Ascendency::Oracle => "Oracle"@,
    }
}

/// The `Ascendency` whose display name is `s`, if any.
pub open spec fn ascendency_from_name(s: Seq<char>) -> Option<Ascendency> {
    if s == "Titan"@ {
        Some(Ascendency::Titan)
    } else if s == "Warbringer"@ {
        Some(Ascendency::Warbringer)
    } else if s == "Smith of Katava"@ {
        Some(Ascendency::SmithOfKatava)
    } else if s == "Stormweaver"@ {
        Some(Ascendency::Stormweaver)
    } else if s == "Chronomancer"@ {
        Some(Ascendency::Chronomancer)
    } else if s == "Disciple of Varashta"@ {
        Some(Ascendency::DiscipleOfVarashta)
    } else if s == "Deadeye"@ {
        Some(Ascendency::Deadeye)
    } else if s == "Pathfinder"@ {
        Some(Ascendency::Pathfinder)
    } else if s == "Ritualist"@ {
        Some(Ascendency::Ritualist)
    } else if s == "Amazon"@ {
        Some(Ascendency::Amazon)
    } else if s == "Invoker"@ {
        Some(Ascendency::Invoker)
    } else if s == "Acolyte of Chayula"@ {
        Some(Ascendency::AcolyteOfChayula)
    } else if s == "Gemling Legionnaire"@ {
        Some(Ascendency::GemlingLegionnaire)
    } else if s == "Tactician"@ {
        Some(Ascendency::Tactician)
    } else if s == "Witchhunter"@ {
        Some(Ascendency::Witchhunter)
    } else if s == "Blood Mage"@ {
        Some(Ascendency::BloodMage)
    } else if s == "Infernalist"@ {
        Some(Ascendency::Infernalist)
    } else if s == "Lich"@ {
        Some(Ascendency::Lich)
    } else if s == "Shaman"@ {
        Some(Ascendency::Shaman)
    } else if s == "Oracle"@ {
        Some(Ascendency::Oracle)
    } else {
        None
    }
}

impl Ascendency {
    /// The display name of this ascendency.
    pub fn to_string(&self) -> (res: String)
        ensures
            res@ == ascendency_name(*self),
    {
        match self {
            Ascendency::Titan => String::from_str("Titan"),
            Ascendency::Warbringer => String::from_str("Warbringer"),
            Ascendency::SmithOfKatava => String::from_str("Smith of Katava"),
            Ascendency::Stormweaver => String::from_str("Stormweaver"),
            Ascendency::Chronomancer => String::from_str("Chronomancer"),
            Ascendency::DiscipleOfVarashta => String::from_str("Disciple of Varashta"),
            Ascendency::Deadeye => String::from_str("Deadeye"),
            Ascendency::Pathfinder => String::from_str("Pathfinder"),
            Ascendency::Ritualist => String::from_str("Ritualist"),
            Ascendency::Amazon => String::from_str("Amazon"),
            Ascendency::Invoker => String::from_str("Invoker"),
            Ascendency::AcolyteOfChayula => String::from_str("Acolyte of Chayula"),
            Ascendency::GemlingLegionnaire => String::from_str("Gemling Legionnaire"),
            Ascendency::Tactician => String::from_str("Tactician"),
            Ascendency::Witchhunter => String::from_str("Witchhunter"),
            Ascendency::BloodMage => String::from_str("Blood Mage"),
            Ascendency::Infernalist => String::from_str("Infernalist"),
            Ascendency::Lich => String::from_str("Lich"),
            Ascendency::Shaman => String::from_str("Shaman"),
            Ascendency::Oracle => String::from_str("Oracle"),
        }
    }

    /// Parses a display name; any other text is refused with a message naming it.
    pub fn parse(s: &str) -> (res: Result<Ascendency, String>)
        ensures
            ascendency_from_name(s@) matches Some(x) ==> res == Ok::<Ascendency, String>(x),
            ascendency_from_name(s@) is None ==> (res matches Err(e) && e@ == "Unknown Ascendency: '"@ + s@ + "'"@),
    {
        if str_equals(s, "Titan") {
            return Ok(Ascendency::Titan);
        }
        if str_equals(s, "Warbringer") {
            return Ok(Ascendency::Warbringer);
        }
        if str_equals(s, "Smith of Katava") {
            return Ok(Ascendency::SmithOfKatava);
        }
        if str_equals(s, "Stormweaver") {
            return Ok(Ascendency::Stormweaver);
        }
        if str_equals(s, "Chronomancer") {
            return Ok(Ascendency::Chronomancer);
        }
        if str_equals(s, "Disciple of Varashta") {
            return Ok(Ascendency::DiscipleOfVarashta);
        }
        if str_equals(s, "Deadeye") {
            return Ok(Ascendency::Deadeye);
        }
        if str_equals(s, "Pathfinder") {
            return Ok(Ascendency::Pathfinder);
        }
        if str_equals(s, "Ritualist") {
            return Ok(Ascendency::Ritualist);
        }
        if str_equals(s, "Amazon") {
            return Ok(Ascendency::Amazon);
        }
        if str_equals(s, "Invoker") {
            return Ok(Ascendency::Invoker);
        }
        if str_equals(s, "Acolyte of Chayula") {
            return Ok(Ascendency::AcolyteOfChayula);
        }
        if str_equals(s, "Gemling Legionnaire") {
            return Ok(Ascendency::GemlingLegionnaire);
        }
        if str_equals(s, "Tactician") {
            return Ok(Ascendency::Tactician);
        }
        if str_equals(s, "Witchhunter") {
            return Ok(Ascendency::Witchhunter);
        }
        if str_equals(s, "Blood Mage") {
            return Ok(Ascendency::BloodMage);
        }
        if str_equals(s, "Infernalist") {
            return Ok(Ascendency::Infernalist);
        }
        if str_equals(s, "Lich") {
            return Ok(Ascendency::Lich);
        }
        if str_equals(s, "Shaman") {
            return Ok(Ascendency::Shaman);
        }
        if str_equals(s, "Oracle") {
            return Ok(Ascendency::Oracle);
        }
        let msg = String::from_str("Unknown Ascendency: '").concat(s).concat("'");
        Err(msg)
    }
}

impl core::str::FromStr for Ascendency {
    type Err = String;

    fn from_str(s: &str) -> (res: Result<Ascendency, String>)
        ensures
            ascendency_from_name(s@) matches Some(x) ==> res == Ok::<Ascendency, String>(x),
            ascendency_from_name(s@) is None ==> (res matches Err(e) && e@ == "Unknown Ascendency: '"@ + s@ + "'"@),
    {
        Ascendency::parse(s)
    }
}

impl Default for Ascendency {
    fn default() -> (res: Ascendency)
        ensures
            res == Ascendency::Titan,
    {
        Ascendency::Titan
    }
}

/// A game league.
#[derive(Debug, Clone, Copy, PartialEq, Eq, Structural, Hash)]
pub enum League {
    Standard,
    RiseOfTheAbyssal,
    TheFateOfTheVaal,
}

/// The display name of a `League`.
pub open spec fn league_name(x: League) -> Seq<char> {
    match x {
        League::Standard => "Standard"@,
        League::RiseOfTheAbyssal => "Rise of the Abyssal"@,
        League::TheFateOfTheVaal => "The Fate of the Vaal"@,
    }
}

/// The `League` whose display name is `s`, if any.
pub open spec fn league_from_name(s: Seq<char>) -> Option<League> {
    if s == "Standard"@ {
        Some(League::Standard)
    } else if s == "Rise of the Abyssal"@ {
        Some(League::RiseOfTheAbyssal)
    } else if s == "The Fate of the Vaal"@ {
        Some(League::TheFateOfTheVaal)
    } else {
        None
    }
}

impl League {
    /// The display name of this league.
    pub fn to_string(&self) -> (res: String)
        ensures
            res@ == league_name(*self),
    {
        match self {
            League::Standard => String::from_str("Standard"),
            League::RiseOfTheAbyssal => String::from_str("Rise of the Abyssal"),
            League::TheFateOfTheVaal => String::from_str("The Fate of the Vaal"),
        }
    }

    /// Parses a display name; any other text is refused with a message naming it.
    pub fn parse(s: &str) -> (res: Result<League, String>)
        ensures
            league_from_name(s@) matches Some(x) ==> res == Ok::<League, String>(x),
            league_from_name(s@) is None ==> (res matches Err(e) && e@ == "Unknown League: '"@ + s@ + "'"@),
    {
        if str_equals(s, "Standard") {
            return Ok(League::Standard);
        }
        if str_equals(s, "Rise of the Abyssal") {
            return Ok(League::RiseOfTheAbyssal);
        }
        if str_equals(s, "The Fate of the Vaal") {
            return Ok(League::TheFateOfTheVaal);
        }
        let msg = String::from_str("Unknown League: '").concat(s).concat("'");
        Err(msg)
    }
}

impl core::str::FromStr for League {
    type Err = String;

    fn from_str(s: &str) -> (res: Result<League, String>)
        ensures
            league_from_name(s@) matches Some(x) ==> res == Ok::<League, String>(x),
            league_from_name(s@) is None ==> (res matches Err(e) && e@ == "Unknown League: '"@ + s@ + "'"@),
    {
        League::parse(s)
    }
}

impl Default for League {
    fn default() -> (res: League)
        ensures
            res == League::Standard,
    {
        League::Standard
    }
}

/// The class that an ascendency belongs to.
pub open spec fn class_of_ascendency(a: Ascendency) -> CharacterClass {
    match a {
        Ascendency::Titan => CharacterClass::Warrior,
        Ascendency::Warbringer => CharacterClass::Warrior,
        Ascendency::SmithOfKatava => CharacterClass::Warrior,
        Ascendency::Stormweaver => CharacterClass::Sorceress,
        Ascendency::Chronomancer => CharacterClass::Sorceress,
        Ascendency::DiscipleOfVarashta => CharacterClass::Sorceress,
        Ascendency::Deadeye => CharacterClass::Ranger,
        Ascendency::Pathfinder => CharacterClass::Ranger,
        Ascendency::Ritualist => CharacterClass::Huntress,
        Ascendency::Amazon => CharacterClass::Huntress,
        Ascendency::Invoker => CharacterClass::Monk,
        Ascendency::AcolyteOfChayula => CharacterClass::Monk,
        Ascendency::GemlingLegionnaire => CharacterClass::Mercenary,
        Ascendency::Tactician => CharacterClass::Mercenary,
        Ascendency::Witchhunter => CharacterClass::Mercenary,
        Ascendency::BloodMage => CharacterClass::Witch,
        Ascendency::Infernalist => CharacterClass::Witch,
        Ascendency::Lich => CharacterClass::Witch,
        Ascendency::Shaman => CharacterClass::Druid,
        Ascendency::Oracle => CharacterClass::Druid,
    }
}

/// Whether an ascendency is compatible with a character class: it is one of
/// the class's own ascendencies.
pub fn is_valid_ascendency_for_class(ascendency: &Ascendency, class: &CharacterClass) -> (res: bool)
    ensures
        res == (class_of_ascendency(*ascendency) == *class),
{
    match class {
        CharacterClass::Warrior => matches!(ascendency, Ascendency::Titan | Ascendency::Warbringer | Ascendency::SmithOfKatava),
        CharacterClass::Sorceress => matches!(ascendency, Ascendency::Stormweaver | Ascendency::Chronomancer | Ascendency::DiscipleOfVarashta),
        CharacterClass::Ranger => matches!(ascendency, Ascendency::Deadeye | Ascendency::Pathfinder),
        CharacterClass::Huntress => matches!(ascendency, Ascendency::Ritualist | Ascendency::Amazon),
        CharacterClass::Monk => matches!(ascendency, Ascendency::Invoker | Ascendency::AcolyteOfChayula),
        CharacterClass::Mercenary => matches!(ascendency, Ascendency::GemlingLegionnaire | Ascendency::Tactician | Ascendency::Witchhunter),
        CharacterClass::Witch => matches!(ascendency, Ascendency::BloodMage | Ascendency::Infernalist | Ascendency::Lich),
        CharacterClass::Druid => matches!(ascendency, Ascendency::Shaman | Ascendency::Oracle),
    }
}

/// Parsing the display name of a class gives that class back: what is
/// stored as text is read back unchanged.
pub proof fn lemma_class_name_roundtrip(x: CharacterClass)
    ensures
        class_from_name(class_name(x)) == Some(x),
{
    reveal_strlit("Warrior");
    assert("Warrior"@ =~= seq!['W','a','r','r','i','o','r']);
    reveal_strlit("Sorceress");
    assert("Sorceress"@ =~= seq!['S','o','r','c','e','r','e','s','s']);
    reveal_strlit("Ranger");
    assert("Ranger"@ =~= seq!['R','a','n','g','e','r']);
    reveal_strlit("Huntress");
    assert("Huntress"@ =~= seq!['H','u','n','t','r','e','s','s']);
    reveal_strlit("Monk");
    assert("Monk"@ =~= seq!['M','o','n','k']);
    reveal_strlit("Mercenary");
    assert("Mercenary"@ =~= seq!['M','e','r','c','e','n','a','r','y']);
    reveal_strlit("Witch");
    assert("Witch"@ =~= seq!['W','i','t','c','h']);
    reveal_strlit("Druid");
    assert("Druid"@ =~= seq!['D','r','u','i','d']);
}

/// Parsing the display name of a ascendency gives that ascendency back: what is
/// stored as text is read back unchanged.
pub proof fn lemma_ascendency_name_roundtrip(x: Ascendency)
    ensures
        ascendency_from_name(ascendency_name(x)) == Some(x),
{
    reveal_strlit("Titan");
    assert("Titan"@ =~= seq!['T','i','t','a','n']);
    reveal_strlit("Warbringer");
    assert("Warbringer"@ =~= seq!['W','a','r','b','r','i','n','g','e','r']);
    reveal_strlit("Smith of Katava");
    assert("Smith of Katava"@ =~= seq!['S','m','i','t','h',' ','o','f',' ','K','a','t','a','v','a']);
    reveal_strlit("Stormweaver");
    assert("Stormweaver"@ =~= seq!['S','t','o','r','m','w','e','a','v','e','r']);
    reveal_strlit("Chronomancer");
    assert("Chronomancer"@ =~= seq!['C','h','r','o','n','o','m','a','n','c','e','r']);
    reveal_strlit("Disciple of Varashta");
    assert("Disciple of Varashta"@ =~= seq!['D','i','s','c','i','p','l','e',' ','o','f',' ','V','a','r','a','s','h','t','a']);
    reveal_strlit("Deadeye");
    assert("Deadeye"@ =~= seq!['D','e','a','d','e','y','e']);
    reveal_strlit("Pathfinder");
    assert("Pathfinder"@ =~= seq!['P','a','t','h','f','i','n','d','e','r']);
    reveal_strlit("Ritualist");
    assert("Ritualist"@ =~= seq!['R','i','t','u','a','l','i','s','t']);
    reveal_strlit("Amazon");
    assert("Amazon"@ =~= seq!['A','m','a','z','o','n']);
    reveal_strlit("Invoker");
    assert("Invoker"@ =~= seq!['I','n','v','o','k','e','r']);
    reveal_strlit("Acolyte of Chayula");
    assert("Acolyte of Chayula"@ =~= seq!['A','c','o','l','y','t','e',' ','o','f',' ','C','h','a','y','u','l','a']);
    reveal_strlit("Gemling Legionnaire");
    assert("Gemling Legionnaire"@ =~= seq!['G','e','m','l','i','n','g',' ','L','e','g','i','o','n','n','a','i','r','e']);
    reveal_strlit("Tactician");
    assert("Tactician"@ =~= seq!['T','a','c','t','i','c','i','a','n']);
    reveal_strlit("Witchhunter");
    assert("Witchhunter"@ =~= seq!['W','i','t','c','h','h','u','n','t','e','r']);
    reveal_strlit("Blood Mage");
    assert("Blood Mage"@ =~= seq!['B','l','o','o','d',' ','M','a','g','e']);
    reveal_strlit("Infernalist");
    assert("Infernalist"@ =~= seq!['I','n','f','e','r','n','a','l','i','s','t']);
    reveal_strlit("Lich");
    assert("Lich"@ =~= seq!['L','i','c','h']);
    reveal_strlit("Shaman");
    assert("Shaman"@ =~= seq!['S','h','a','m','a','n']);
    reveal_strlit("Oracle");
    assert("Oracle"@ =~= seq!['O','r','a','c','l','e']);
}

/// Parsing the display name of a league gives that league back: what is
/// stored as text is read back unchanged.
pub proof fn lemma_league_name_roundtrip(x: League)
    ensures
        league_from_name(league_name(x)) == Some(x),
{
    reveal_strlit("Standard");
    assert("Standard"@ =~= seq!['S','t','a','n','d','a','r','d']);
    reveal_strlit("Rise of the Abyssal");
    assert("Rise of the Abyssal"@ =~= seq!['R','i','s','e',' ','o','f',' ','t','h','e',' ','A','b','y','s','s','a','l']);
    reveal_strlit("The Fate of the Vaal");
    assert("The Fate of the Vaal"@ =~= seq!['T','h','e',' ','F','a','t','e',' ','o','f',' ','t','h','e',' ','V','a','a','l']);
}

/// The kind of a location a character can be in: every location is a zone,
/// towns included.
#[derive(Debug, Clone, Copy, PartialEq, Eq, Structural, Hash)]
pub enum LocationType {
    /// A playable game zone or area.
    Zone,
}

impl LocationType {
    /// The display name of this location type.
    pub fn to_string(&self) -> (res: String)
        ensures
            res@ == "Zone"@,
    {
        String::from_str("Zone")
    }
}

impl Default for LocationType {
    fn default() -> (res: LocationType)
        ensures
            res == LocationType::Zone,
    {
        LocationType::Zone
    }
}

/// A character's profile: who the character is.
#[derive(Debug, Clone)]
pub struct CharacterProfile {
    pub name: String,
    pub class: CharacterClass,
    pub ascendency: Ascendency,
    pub league: League,
    pub hardcore: bool,
    pub solo_self_found: bool,
    pub level: u32,
}

/// When a character was created, last played and last changed.
#[derive(Debug, Clone, Copy)]
pub struct CharacterTimestamps {
    pub created_at: Timestamp,
    pub last_played: Option<Timestamp>,
    pub last_updated: Timestamp,
}

/// The zone a character is currently in, and when that was recorded. Zone
/// metadata is looked up by name when needed.
#[derive(Debug, Clone)]
pub struct LocationState {
    pub zone_name: String,
    pub last_updated: Timestamp,
}

impl LocationState {
    /// The character is now in `zone_name`.
    pub fn new(zone_name: String) -> (res: LocationState)
        ensures
            res.zone_name == zone_name,
    {
        LocationState { zone_name, last_updated: now() }
    }
}

/// What is known of a zone that a location is enriched with.
#[derive(Debug, Clone, Copy)]
pub struct ZoneMetadata {
    pub act: u32,
    pub is_town: bool,
    pub area_level: Option<u32>,
    pub has_waypoint: bool,
}

/// A location with the metadata of its zone, as shown to the user.
#[derive(Debug, Clone)]
pub struct EnrichedLocationState {
    pub zone_name: String,
    pub act: u32,
    pub is_town: bool,
    pub location_type: LocationType,
    pub area_level: Option<u32>,
    pub has_waypoint: bool,
    pub last_updated: Timestamp,
}

/// A location with the metadata of its zone where the zone is known, and
/// with act 0, no area level, not a town and no waypoint where it is not.
pub open spec fn enriched_location(location: LocationState, metadata: Option<ZoneMetadata>) -> EnrichedLocationState {
    match metadata {
        Some(m) => EnrichedLocationState {
            zone_name: location.zone_name,
            act: m.act,
            is_town: m.is_town,
            location_type: LocationType::Zone,
            area_level: m.area_level,
            has_waypoint: m.has_waypoint,
            last_updated: location.last_updated,
        },
        None => EnrichedLocationState {
            zone_name: location.zone_name,
            act: 0,
            is_town: false,
            location_type: LocationType::Zone,
            area_level: None,
            has_waypoint: false,
            last_updated: location.last_updated,
        },
    }
}

impl EnrichedLocationState {
    /// The location with the metadata of its zone.
    pub fn from_location_and_metadata(location: &LocationState, metadata: &ZoneMetadata) -> (res: EnrichedLocationState)
        ensures
            res == enriched_location(*location, Some(*metadata)),
    {
        EnrichedLocationState {
            zone_name: location.zone_name.clone(),
            act: metadata.act,
            is_town: metadata.is_town,
            location_type: LocationType::Zone,
            area_level: metadata.area_level,
            has_waypoint: metadata.has_waypoint,
            last_updated: location.last_updated,
        }
    }

    /// The location of a zone whose metadata is unknown.
    pub fn from_location_minimal(location: &LocationState) -> (res: EnrichedLocationState)
        ensures
            res == enriched_location(*location, None),
    {
        EnrichedLocationState {
            zone_name: location.zone_name.clone(),
            act: 0,
            is_town: false,
            location_type: LocationType::Zone,
            area_level: None,
            has_waypoint: false,
            last_updated: location.last_updated,
        }
    }
}

/// Everything kept for one character.
#[derive(Debug, Clone)]
pub struct CharacterData {
    pub id: String,
    pub profile: CharacterProfile,
    pub timestamps: CharacterTimestamps,
    pub current_location: Option<LocationState>,
    pub summary: TrackingSummary,
    pub walkthrough_progress: WalkthroughProgress,
}

/// What a user may change of a character.
#[derive(Debug, Clone)]
pub struct CharacterUpdateParams {
    pub name: String,
    pub class: CharacterClass,
    pub ascendency: Ascendency,
    pub league: League,
    pub hardcore: bool,
    pub solo_self_found: bool,
    pub level: u32,
}

impl CharacterData {
    /// A new character at level 1: never played, nowhere yet, with an empty
    /// summary and no walkthrough progress, created and updated now.
    pub fn new(
        id: String,
        name: String,
        class: CharacterClass,
        ascendency: Ascendency,
        league: League,
        hardcore: bool,
        solo_self_found: bool,
    ) -> (res: CharacterData)
        ensures
            res.id == id,
            res.profile == (CharacterProfile {
                name,
                class,
                ascendency,
                league,
                hardcore,
                solo_self_found,
                level: 1,
            }),
            res.timestamps.last_played is None,
            res.timestamps.created_at == res.timestamps.last_updated,
            res.current_location is None,
            res.summary == empty_summary(id),
            res.walkthrough_progress.current_step_id is None,
            !res.walkthrough_progress.is_completed,
    {
        let created = now();
        let summary_id = id.clone();
        CharacterData {
            id,
            profile: CharacterProfile {
                name,
                class,
                ascendency,
                league,
                hardcore,
                solo_self_found,
                level: 1,
            },
            timestamps: CharacterTimestamps {
                created_at: created,
                last_played: None,
                last_updated: created,
            },
            current_location: None,
            summary: TrackingSummary::new(summary_id),
            walkthrough_progress: WalkthroughProgress::new(),
        }
    }

    /// Marks the character as changed now; nothing else changes.
    pub fn touch(&mut self)
        ensures
            final(self).id == old(self).id,
            final(self).profile == old(self).profile,
            final(self).timestamps.created_at == old(self).timestamps.created_at,
            final(self).timestamps.last_played == old(self).timestamps.last_played,
            final(self).current_location == old(self).current_location,
            final(self).summary == old(self).summary,
            final(self).walkthrough_progress == old(self).walkthrough_progress,
    {
        self.timestamps.last_updated = now();
    }
}

/// A character as shown to the user, with its location enriched.
#[derive(Debug, Clone)]
pub struct CharacterDataResponse {
    pub id: String,
    pub name: String,
    pub class: CharacterClass,
    pub ascendency: Ascendency,
    pub league: League,
    pub hardcore: bool,
    pub solo_self_found: bool,
    pub level: u32,
    pub created_at: Timestamp,
    pub last_played: Option<Timestamp>,
    pub current_location: Option<EnrichedLocationState>,
    pub summary: TrackingSummary,
    pub walkthrough_progress: WalkthroughProgress,
    pub last_updated: Timestamp,
}

/// The response for a character, with the given enriched location.
pub open spec fn character_response(
    character: CharacterData,
    location: Option<EnrichedLocationState>,
) -> CharacterDataResponse {
    CharacterDataResponse {
        id: character.id,
        name: character.profile.name,
        class: character.profile.class,
        ascendency: character.profile.ascendency,
        league: character.profile.league,
        hardcore: character.profile.hardcore,
        solo_self_found: character.profile.solo_self_found,
        level: character.profile.level,
        created_at: character.timestamps.created_at,
        last_played: character.timestamps.last_played,
        current_location: location,
        summary: character.summary,
        walkthrough_progress: character.walkthrough_progress,
        last_updated: character.timestamps.last_updated,
    }
}

impl From<CharacterData> for CharacterDataResponse {
    /// The response for a character, without its location.
    fn from(character: CharacterData) -> (res: CharacterDataResponse) {
        CharacterDataResponse {
            id: character.id,
            name: character.profile.name,
            class: character.profile.class,
            ascendency: character.profile.ascendency,
            league: character.profile.league,
            hardcore: character.profile.hardcore,
            solo_self_found: character.profile.solo_self_found,
            level: character.profile.level,
            created_at: character.timestamps.created_at,
            last_played: character.timestamps.last_played,
            current_location: None,
            summary: character.summary,
            walkthrough_progress: character.walkthrough_progress,
            last_updated: character.timestamps.last_updated,
        }
    }
}

impl vstd::std_specs::convert::FromSpecImpl<CharacterData> for CharacterDataResponse {
    open spec fn obeys_from_spec() -> bool {
        true
    }

    open spec fn from_spec(character: CharacterData) -> CharacterDataResponse {
        character_response(character, None)
    }
}

/// A zone's statistics for one character together with what is known of the
/// zone itself: its act, level, kind, bosses, characters, neighbours and
/// links.
#[derive(Debug, Clone)]
pub struct EnrichedZoneStats {
    pub zone_name: String,
    pub duration: u64,
    pub deaths: u32,
    pub visits: u32,
    pub first_visited: Timestamp,
    pub last_visited: Timestamp,
    pub is_active: bool,
    pub entry_timestamp: Option<Timestamp>,
    pub act: Option<u32>,
    pub area_level: Option<u32>,
    pub is_town: bool,
    pub has_waypoint: bool,
    pub zone_type: String,
    pub bosses: Vec<String>,
    pub npcs: Vec<String>,
    pub connected_zones: Vec<String>,
    pub description: Option<String>,
    pub points_of_interest: Vec<String>,
    pub image_url: Option<String>,
    pub wiki_url: Option<String>,
    pub last_updated: Option<Timestamp>,
}

/// A character as listed, with its location enriched and whether it is the
/// active character.
#[derive(Debug, Clone)]
pub struct CharacterSummaryResponse {
    pub id: String,
    pub name: String,
    pub class: CharacterClass,
    pub ascendency: Ascendency,
    pub league: League,
    pub hardcore: bool,
    pub solo_self_found: bool,
    pub level: u32,
    pub created_at: Timestamp,
    pub last_played: Option<Timestamp>,
    pub last_updated: Timestamp,
    pub current_location: Option<EnrichedLocationState>,
    pub summary: TrackingSummary,
    pub walkthrough_progress: WalkthroughProgress,
    pub is_active: bool,
}

} // verus!
